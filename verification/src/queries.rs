//! How a listing of quotes is ordered: the column and the direction that a
//! request names.

use crate::text::same_text;
use vstd::prelude::*;

verus! {

/// Newest first.
pub const DESCENDING: &'static str = "DESC";

/// Oldest first.
pub const ASCENDING: &'static str = "ASC";

/// The column that holds when a quote was last changed, by which quotes are
/// ordered where the request names no other.
pub const COLUMN_UPDATED_AT: &'static str = "updated_at";

/// What `str::to_uppercase` of std makes of a text.
pub uninterp spec fn uppercased(text: Seq<char>) -> Seq<char>;

/// Calls `str::to_uppercase` of std. The contract names the result after the
/// text and claims nothing else of it.
#[verifier::external_body]
fn uppercase(text: &str) -> (upper: String)
    ensures
        upper@ == uppercased(text@),
{
    text.to_uppercase()
}

/// The direction for a word in capital letters: descending for `DESC`,
/// ascending for every other word.
pub open spec fn direction_of(upper: Seq<char>) -> Seq<char> {
    if upper == DESCENDING@ {
        DESCENDING@
    } else {
        ASCENDING@
    }
}

/// The direction that a request asks for; descending where it asks for
/// none.
pub open spec fn direction_asked(order: Option<&str>) -> Seq<char> {
    match order {
        Some(word) => direction_of(uppercased(word@)),
        None => DESCENDING@,
    }
}

/// The column for the name by which a request asks to sort.
pub open spec fn column_of(sort_by: Option<&str>) -> Seq<char> {
    match sort_by {
        None => COLUMN_UPDATED_AT@,
        Some(name) => if name@ == "date_created"@ {
            "created_at"@
        } else if name@ == "date_modified"@ {
            COLUMN_UPDATED_AT@
        } else if name@ == "chapter"@ {
            "chapter_id"@
        } else if name@ == "chapter_progress"@ {
            "chapter_progress"@
        } else if name@ == "starred"@ {
            "starred"@
        } else {
            COLUMN_UPDATED_AT@
        },
    }
}

/// The direction for a word in capital letters.
pub fn direction_for(upper: &str) -> (direction: &'static str)
    ensures
        direction@ == direction_of(upper@),
{
    if same_text(upper, DESCENDING) {
        DESCENDING
    } else {
        ASCENDING
    }
}

/// The column for the name by which a request asks to sort.
pub fn column_for(sort_by: Option<&str>) -> (column: &'static str)
    ensures
        column@ == column_of(sort_by),
{
    match sort_by {
        None => COLUMN_UPDATED_AT,
        Some(name) => if same_text(name, "date_created") {
            "created_at"
        } else if same_text(name, "date_modified") {
            COLUMN_UPDATED_AT
        } else if same_text(name, "chapter") {
            "chapter_id"
        } else if same_text(name, "chapter_progress") {
            "chapter_progress"
        } else if same_text(name, "starred") {
            "starred"
        } else {
            COLUMN_UPDATED_AT
        },
    }
}

/// The direction and the column for a listing, in this order. A request
/// without a direction is listed in descending order, one without a column,
/// or with an unknown one, by the time of the last change.
pub fn extract_order_clauses(sort_by: Option<&str>, order: Option<&str>) -> (r: (String, String))
    ensures
        r.0@ == direction_asked(order),
        r.1@ == column_of(sort_by),
{
    let direction = match order {
        Some(word) => {
            let upper = uppercase(word);
            direction_for(upper.as_str())
        },
        None => DESCENDING,
    };
    (String::from_str(direction), String::from_str(column_for(sort_by)))
}

} // verus!
