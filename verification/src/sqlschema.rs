//! Records of an older layout of the library, and their reading from JSON
//! objects.

use vstd::prelude::*;

verus! {

/// `serde_json::Value`, a JSON value of any kind.
#[verifier::external_type_specification]
#[verifier::external_body]
pub struct ExJsonValue(serde_json::Value);

/// An author of the older layout.
#[derive(Debug, Clone, PartialEq, Eq)]
pub struct Author {
    pub id: i32,
    pub name: String,
    pub photo: Option<String>,
    pub goodreads_url: Option<String>,
}

/// A book of the older layout.
#[derive(Debug, Clone, PartialEq, Eq)]
pub struct Book {
    pub id: String,
    pub title: String,
    pub author_id: Option<i32>,
    pub publication_date: Option<String>,
}

/// A note of the older layout. `chapter_progress` is the bit pattern of a
/// double-precision fraction.
#[derive(Debug, Clone, PartialEq, Eq)]
pub struct Note {
    pub id: String,
    pub book_id: Option<String>,
    pub author_id: Option<i32>,
    pub date_created: Option<String>,
    pub date_modified: Option<String>,
    pub note_type: String,
    pub chapter: Option<String>,
    pub chapter_progress: Option<u64>,
    pub content: Option<String>,
    pub annotations: Option<String>,
    pub hidden: i32,
    pub starred: i32,
}

/// A note as the text search lists it.
#[derive(Debug, Clone, PartialEq, Eq)]
pub struct NoteFts {
    pub id: String,
    pub content: Option<String>,
    pub book: String,
    pub author: String,
}

/// A book as a JSON export describes it.
#[derive(Debug, Clone, PartialEq, Eq)]
pub struct BookJson {
    pub id: String,
    pub title: String,
    pub author: Option<String>,
}

/// A note as a JSON export describes it. `chapter_progress` is the bit
/// pattern of a double-precision fraction.
#[derive(Debug, Clone, PartialEq, Eq)]
pub struct NoteJson {
    pub id: String,
    pub book_id: Option<String>,
    pub text: Option<String>,
    pub datecreated: Option<String>,
    pub datemodified: Option<String>,
    pub chapter: Option<String>,
    pub chapter_progress: Option<u64>,
    pub note_type: String,
    pub annotation: Option<String>,
}

/// The members of a JSON object whose values are strings, by their keys. A
/// value that is no object has none.
pub uninterp spec fn json_texts(value: serde_json::Value) -> Map<Seq<char>, Seq<char>>;

/// The members of a JSON object whose values are numbers, by their keys,
/// each as the bit pattern of the double-precision number nearest to it. A
/// value that is no object has none.
pub uninterp spec fn json_numbers(value: serde_json::Value) -> Map<Seq<char>, u64>;

/// The member under `key`, if there is one.
pub open spec fn member<T>(members: Map<Seq<char>, T>, key: Seq<char>) -> Option<T> {
    if members.contains_key(key) {
        Some(members[key])
    } else {
        None
    }
}

/// A text that may be absent, as a sequence of characters.
pub open spec fn text_view(text: Option<String>) -> Option<Seq<char>> {
    match text {
        Some(t) => Some(t@),
        None => None,
    }
}

/// Indexes a `serde_json::Value` by a key and calls `as_str` on what stands
/// there: the string under the key, and nothing where the value is no
/// object, has no such key, or holds something else than a string there.
#[verifier::external_body]
fn json_text(value: &serde_json::Value, key: &str) -> (r: Option<String>)
    ensures
        text_view(r) == member(json_texts(*value), key@),
{
    match value[key].as_str() {
        Some(text) => Some(text.to_string()),
        None => None,
    }
}

/// Indexes a `serde_json::Value` by a key and calls `as_f64` on what stands
/// there: the number under the key as the bits of a double-precision
/// number, and nothing where there is no number.
#[verifier::external_body]
fn json_number(value: &serde_json::Value, key: &str) -> (r: Option<u64>)
    ensures
        r == member(json_numbers(*value), key@),
{
    match value[key].as_f64() {
        Some(number) => Some(number.to_bits()),
        None => None,
    }
}

/// What is said of an object without the text that a record needs under
/// `key`.
pub open spec fn missing(key: &str) -> Seq<char> {
    "Invalid parameter "@ + key@
}

/// What is said of an object without the text that a record needs under
/// `key`.
fn missing_parameter(key: &str) -> (message: String)
    ensures
        message@ == missing(key),
{
    String::from_str("Invalid parameter ").concat(key)
}

/// Reads a book from a JSON object. The object must name the book under
/// `volumeid` and give its `title`; the `author` may be missing.
pub fn parse_book(value: &serde_json::Value) -> (r: Result<BookJson, String>)
    ensures
        match r {
            Ok(book) => {
                &&& member(json_texts(*value), "volumeid"@) == Some(book.id@)
                &&& member(json_texts(*value), "title"@) == Some(book.title@)
                &&& member(json_texts(*value), "author"@) == text_view(book.author)
            },
            Err(message) => if member(json_texts(*value), "volumeid"@) is None {
                message@ == missing("volumeid")
            } else {
                member(json_texts(*value), "title"@) is None && message@ == missing("title")
            },
        },
{
    let id = match json_text(value, "volumeid") {
        Some(id) => id,
        None => {
            return Err(missing_parameter("volumeid"));
        },
    };
    let title = match json_text(value, "title") {
        Some(title) => title,
        None => {
            return Err(missing_parameter("title"));
        },
    };
    Ok(BookJson { id, title, author: json_text(value, "author") })
}

/// Reads a note from a JSON object. The object must name the note under
/// `bookmarkid` and give its `kind`; everything else may be missing.
pub fn parse_note(value: &serde_json::Value) -> (r: Result<NoteJson, String>)
    ensures
        match r {
            Ok(note) => {
                &&& member(json_texts(*value), "bookmarkid"@) == Some(note.id@)
                &&& member(json_texts(*value), "kind"@) == Some(note.note_type@)
                &&& member(json_texts(*value), "volumeid"@) == text_view(note.book_id)
                &&& member(json_texts(*value), "text"@) == text_view(note.text)
                &&& member(json_texts(*value), "annotation"@) == text_view(note.annotation)
                &&& member(json_texts(*value), "datecreated"@) == text_view(note.datecreated)
                &&& member(json_texts(*value), "datemodified"@) == text_view(note.datemodified)
                &&& member(json_texts(*value), "chapter"@) == text_view(note.chapter)
                &&& member(json_numbers(*value), "chapterprogress"@) == note.chapter_progress
            },
            Err(message) => if member(json_texts(*value), "bookmarkid"@) is None {
                message@ == missing("bookmarkid")
            } else {
                member(json_texts(*value), "kind"@) is None && message@ == missing("kind")
            },
        },
{
    let id = match json_text(value, "bookmarkid") {
        Some(id) => id,
        None => {
            return Err(missing_parameter("bookmarkid"));
        },
    };
    let note_type = match json_text(value, "kind") {
        Some(kind) => kind,
        None => {
            return Err(missing_parameter("kind"));
        },
    };
    Ok(
        NoteJson {
            id,
            book_id: json_text(value, "volumeid"),
            text: json_text(value, "text"),
            datecreated: json_text(value, "datecreated"),
            datemodified: json_text(value, "datemodified"),
            chapter: json_text(value, "chapter"),
            chapter_progress: json_number(value, "chapterprogress"),
            note_type,
            annotation: json_text(value, "annotation"),
        },
    )
}

} // verus!
