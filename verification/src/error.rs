//! What can end an import before it is done.

use vstd::prelude::*;

verus! {

/// The failure of an import run, with a sentence for the user.
#[derive(Debug, Clone, PartialEq, Eq)]
pub enum ImportError {
    /// The source is missing or cannot be opened.
    SourceUnreadable(String),
    /// A record of the source does not have the expected shape.
    InvalidFormat(String),
    /// The store refused a row.
    PersistenceError(String),
    /// A date that a quote or a note needs cannot be read.
    InvalidTimestamp(String),
}

/// An `ImportError` with its sentence as a sequence of characters.
pub ghost enum Failure {
    SourceUnreadable(Seq<char>),
    InvalidFormat(Seq<char>),
    PersistenceError(Seq<char>),
    InvalidTimestamp(Seq<char>),
}

impl View for ImportError {
    type V = Failure;

    open spec fn view(&self) -> Failure {
        match self {
            ImportError::SourceUnreadable(m) => Failure::SourceUnreadable(m@),
            ImportError::InvalidFormat(m) => Failure::InvalidFormat(m@),
            ImportError::PersistenceError(m) => Failure::PersistenceError(m@),
            ImportError::InvalidTimestamp(m) => Failure::InvalidTimestamp(m@),
        }
    }
}

impl ImportError {
    /// The sentence that describes the failure.
    pub open spec fn message_text(&self) -> Seq<char> {
        match self@ {
            Failure::SourceUnreadable(m) => m,
            Failure::InvalidFormat(m) => m,
            Failure::PersistenceError(m) => m,
            Failure::InvalidTimestamp(m) => m,
        }
    }

    /// The sentence that describes the failure.
    pub fn message(&self) -> (text: &String)
        ensures
            text@ == self.message_text(),
    {
        match self {
            ImportError::SourceUnreadable(m) => m,
            ImportError::InvalidFormat(m) => m,
            ImportError::PersistenceError(m) => m,
            ImportError::InvalidTimestamp(m) => m,
        }
    }
}

/// The store refused an author.
pub const FAILED_AUTHOR: &'static str = "Failed to insert author";

/// The store refused a book.
pub const FAILED_BOOK: &'static str = "Failed to insert book";

/// The store refused a chapter.
pub const FAILED_CHAPTER: &'static str = "Failed to insert chapter";

/// The store refused a quote.
pub const FAILED_QUOTE: &'static str = "Failed to insert quote";

/// The store refused a note.
pub const FAILED_NOTE: &'static str = "Failed to insert note";

/// An export holds more records than identifiers can be drawn for.
pub const TOO_MANY_RECORDS: &'static str = "Too many records to import";

/// The failure of the store to take a row, with the sentence `what`.
pub fn refused(what: &str) -> (e: ImportError)
    ensures
        e@ == Failure::PersistenceError(what@),
{
    ImportError::PersistenceError(String::from_str(what))
}

} // verus!
