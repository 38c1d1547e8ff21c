//! The rows of the library: authors, books, chapters, quotes, notes and tags.

use crate::datetime::Timestamp;
use vstd::prelude::*;

verus! {

/// A writer. Where no outside identifier is known, the name tells authors
/// apart.
#[derive(Debug, Clone, PartialEq, Eq)]
pub struct Author {
    pub id: String,
    pub name: String,
    pub created_at: Timestamp,
    pub updated_at: Timestamp,
    pub deleted_at: Option<Timestamp>,
    pub original_id: Option<String>,
}

/// A book. `original_id` is the identifier under which the source that the
/// book came from knows it.
#[derive(Debug, Clone, PartialEq, Eq)]
pub struct Book {
    pub id: String,
    pub author_id: Option<String>,
    pub title: String,
    pub publication_year: Option<String>,
    pub created_at: Timestamp,
    pub updated_at: Timestamp,
    pub deleted_at: Option<Timestamp>,
    pub original_id: Option<String>,
}

/// A highlighted passage. `chapter_progress` carries the position within the
/// chapter as the bit pattern of a double-precision fraction, untouched.
#[derive(Debug, Clone, PartialEq, Eq)]
pub struct Quote {
    pub id: String,
    pub book_id: Option<String>,
    pub author_id: Option<String>,
    pub chapter_id: Option<String>,
    pub chapter_progress: Option<u64>,
    pub content: Option<String>,
    pub starred: Option<i64>,
    pub created_at: Timestamp,
    pub updated_at: Timestamp,
    pub imported_at: Option<Timestamp>,
    pub deleted_at: Option<Timestamp>,
    pub original_id: Option<String>,
}

/// A chapter of a book; `volume_index` orders the chapters of one book.
#[derive(Debug, Clone, PartialEq, Eq)]
pub struct Chapter {
    pub id: String,
    pub book_id: Option<String>,
    pub title: String,
    pub created_at: Timestamp,
    pub updated_at: Timestamp,
    pub deleted_at: Option<Timestamp>,
    pub original_id: Option<String>,
    pub volume_index: i64,
}

/// A free annotation on a quote or on a book.
#[derive(Debug, Clone, PartialEq, Eq)]
pub struct Note {
    pub id: String,
    pub book_id: Option<String>,
    pub author_id: Option<String>,
    pub quote_id: Option<String>,
    pub content: Option<String>,
    pub created_at: Timestamp,
    pub updated_at: Timestamp,
    pub deleted_at: Option<Timestamp>,
}

/// A label that quotes can carry.
#[derive(Debug, Clone, PartialEq, Eq)]
pub struct Tag {
    pub id: String,
    pub name: String,
    pub color: Option<String>,
}

/// The link between one quote and one tag.
#[derive(Debug, Clone, PartialEq, Eq)]
pub struct QuoteTag {
    pub quote_id: String,
    pub tag_id: String,
}

/// A quote with the title of its book and the name of its author, as shown
/// when one quote is drawn at random.
#[derive(Debug, Clone, PartialEq, Eq)]
pub struct RandomQuote {
    pub book_id: Option<String>,
    pub book_title: Option<String>,
    pub author_id: Option<String>,
    pub author_name: Option<String>,
    pub content: Option<String>,
}

/// All books and all authors at once.
#[derive(Debug, Clone, PartialEq, Eq)]
pub struct Library {
    pub books: Vec<Book>,
    pub authors: Vec<Author>,
}

/// A starred quote with the title of its book and the name of its author.
#[derive(Debug, Clone, PartialEq, Eq)]
pub struct StarredQuote {
    pub id: String,
    pub book_id: Option<String>,
    pub book_title: Option<String>,
    pub author_id: Option<String>,
    pub author_name: Option<String>,
    pub content: Option<String>,
    pub starred: Option<i64>,
    pub created_at: Timestamp,
    pub updated_at: Timestamp,
}

/// A copy of a text that may be absent.
pub fn clone_text(text: &Option<String>) -> (r: Option<String>)
    ensures
        r == *text,
{
    match text {
        Some(t) => Some(t.clone()),
        None => None,
    }
}

} // verus!
