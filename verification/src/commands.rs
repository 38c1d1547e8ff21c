//! What the commands of the window ask of their arguments before they touch
//! the library.

use crate::text::{chars_of, trim, trimmed};
use vstd::prelude::*;
use vstd::string::StringSliceAdditionalSpecFns;

verus! {

/// The least number of bytes in the name of an author and in the title of a
/// book.
pub const SHORTEST_NAME: usize = 2;

/// What is said of a name that is too short.
pub const INVALID_AUTHOR_NAME: &'static str = "Invalid author name";

/// What is said of a title that is too short.
pub const INVALID_BOOK_TITLE: &'static str = "Invalid book title";

/// What is said of a quote without text.
pub const EMPTY_QUOTE: &'static str = "Note content cannot be empty";

/// Accepts the name of a new author if it has two bytes or more.
pub fn check_author_name(name: &str) -> (r: Result<(), String>)
    ensures
        r is Ok <==> name.spec_bytes().len() >= SHORTEST_NAME,
        r is Err ==> r->Err_0@ == INVALID_AUTHOR_NAME@,
{
    if name.as_bytes().len() < SHORTEST_NAME {
        Err(String::from_str(INVALID_AUTHOR_NAME))
    } else {
        Ok(())
    }
}

/// Accepts the title of a new book if it has two bytes or more.
pub fn check_book_title(title: &str) -> (r: Result<(), String>)
    ensures
        r is Ok <==> title.spec_bytes().len() >= SHORTEST_NAME,
        r is Err ==> r->Err_0@ == INVALID_BOOK_TITLE@,
{
    if title.as_bytes().len() < SHORTEST_NAME {
        Err(String::from_str(INVALID_BOOK_TITLE))
    } else {
        Ok(())
    }
}

/// Accepts the text of a new quote if it is more than white space.
pub fn check_quote_content(content: &str) -> (r: Result<(), String>)
    ensures
        r is Ok <==> trimmed(content@).len() > 0,
        r is Err ==> r->Err_0@ == EMPTY_QUOTE@,
{
    if trim(&chars_of(content)).len() == 0 {
        Err(String::from_str(EMPTY_QUOTE))
    } else {
        Ok(())
    }
}

/// What is said of an author who is in the library already.
pub fn author_already_present(name: &str) -> (message: String)
    ensures
        message@ == "Author "@ + name@ + " already present"@,
{
    String::from_str("Author ").concat(name).concat(" already present")
}

} // verus!
