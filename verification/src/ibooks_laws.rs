//! What holds of every import from Apple Books: a run only adds rows, a
//! second run over the same books and annotations adds none, and the
//! reader's words hang on the quote of their annotation.

use crate::datetime::Timestamp;
use crate::error::Failure;
use crate::ibooks::{
    annotation_in, ibooks_book_step, ibooks_books, ibooks_has_note, ibooks_outcome,
    ibooks_quote_row, ibooks_quote_step, ibooks_quotes, IBooksBookAuthor, IBooksExport,
    IBooksQuote,
};
use crate::models::{Book, Quote};
use crate::reconcile::{book_author_resolved, fresh_run, owner_of, ImportSummary, Run};
use crate::store::{
    book_from, first_from, lemma_found_stays, lemma_missing_then_pushed, new_book, quote_from,
    StoreView,
};
use vstd::prelude::*;

verus! {

/// Whether the table of books holds a book for every book of the library in
/// which an annotation was made.
pub open spec fn annotated_books_known(
    table: Seq<Book>,
    quotes: Seq<IBooksQuote>,
    books: Seq<IBooksBookAuthor>,
) -> bool {
    forall|i: int|
        0 <= i < books.len() ==> {
            ||| first_from(quotes, annotation_in((#[trigger] books[i]).id@), 0) is None
            ||| first_from(table, book_from(books[i].id@), 0) is Some
        }
}

/// Whether every annotation is either a quote of the store or made in a
/// book that the store does not know.
pub open spec fn annotations_settled(
    table: Seq<Quote>,
    books: Seq<Book>,
    quotes: Seq<IBooksQuote>,
) -> bool {
    forall|t: int|
        0 <= t < quotes.len() ==> {
            ||| first_from(table, quote_from((#[trigger] quotes[t]).id@), 0) is Some
            ||| owner_of(books, quotes[t].book_id@) is None
        }
}

/// After a book of the library was looked at, the store knows it if it has
/// annotations; quotes and notes are as they were.
pub proof fn lemma_ibooks_book_step_grows(
    run: Run,
    quotes: Seq<IBooksQuote>,
    book: IBooksBookAuthor,
    now: Timestamp,
    ids: Seq<String>,
)
    ensures
        ibooks_book_step(run, quotes, book, now, ids) matches Ok(next) ==> {
            &&& next.store.extends(run.store)
            &&& next.store.quotes == run.store.quotes
            &&& next.store.notes == run.store.notes
            &&& next.store.chapters == run.store.chapters
            &&& {
                ||| first_from(quotes, annotation_in(book.id@), 0) is None
                ||| first_from(next.store.books, book_from(book.id@), 0) is Some
            }
        },
{
    if first_from(quotes, annotation_in(book.id@), 0) is Some && first_from(
        run.store.books,
        book_from(book.id@),
        0,
    ) is None {
        match book_author_resolved(run, book.author, now, ids) {
            Err(_) => {},
            Ok((known, author_id)) => {
                let row = new_book(
                    ids[known.used as int],
                    book.title,
                    author_id,
                    Some(book.id),
                    now,
                );
                if known.used < ids.len() && known.store.admits_book(row) {
                    lemma_missing_then_pushed(known.store.books, row, book_from(book.id@));
                }
            },
        }
    }
}

/// After the books of the library were looked at, the store knows each that
/// has annotations; quotes and notes are as they were.
pub proof fn lemma_ibooks_books_grow(
    run: Run,
    quotes: Seq<IBooksQuote>,
    books: Seq<IBooksBookAuthor>,
    now: Timestamp,
    ids: Seq<String>,
)
    ensures
        ibooks_books(run, quotes, books, now, ids) matches Ok(next) ==> {
            &&& next.store.extends(run.store)
            &&& next.store.quotes == run.store.quotes
            &&& next.store.notes == run.store.notes
            &&& next.store.chapters == run.store.chapters
            &&& annotated_books_known(next.store.books, quotes, books)
        },
    decreases books.len(),
{
    if books.len() > 0 {
        lemma_ibooks_book_step_grows(run, quotes, books[0], now, ids);
        match ibooks_book_step(run, quotes, books[0], now, ids) {
            Err(_) => {},
            Ok(mid) => {
                let rest = books.drop_first();
                lemma_ibooks_books_grow(mid, quotes, rest, now, ids);
                match ibooks_books(mid, quotes, rest, now, ids) {
                    Err(_) => {},
                    Ok(next) => {
                        if first_from(mid.store.books, book_from(books[0].id@), 0) is Some {
                            lemma_found_stays(
                                mid.store.books,
                                next.store.books,
                                book_from(books[0].id@),
                            );
                        }
                        assert forall|i: int| 0 <= i < books.len() implies {
                            ||| first_from(
                                quotes,
                                annotation_in((#[trigger] books[i]).id@),
                                0,
                            ) is None
                            ||| first_from(next.store.books, book_from(books[i].id@), 0) is Some
                        } by {
                            if i > 0 {
                                assert(books[i] == rest[i - 1]);
                            }
                        }
                    },
                }
            },
        }
    }
}

/// After an annotation was looked at, it is a quote of the store unless the
/// store does not know its book; authors, books and chapters are as they
/// were.
pub proof fn lemma_ibooks_quote_step_grows(
    run: Run,
    quote: IBooksQuote,
    now: Timestamp,
    ids: Seq<String>,
)
    ensures
        ibooks_quote_step(run, quote, now, ids) matches Ok(next) ==> {
            &&& next.store.extends(run.store)
            &&& next.store.authors == run.store.authors
            &&& next.store.books == run.store.books
            &&& next.store.chapters == run.store.chapters
            &&& {
                ||| first_from(next.store.quotes, quote_from(quote.id@), 0) is Some
                ||| owner_of(next.store.books, quote.book_id@) is None
            }
        },
{
    if first_from(run.store.quotes, quote_from(quote.id@), 0) is None {
        match owner_of(run.store.books, quote.book_id@) {
            None => {},
            Some(owner) => {
                let row = ibooks_quote_row(ids[run.used as int], quote, owner, now);
                if run.used < ids.len() && run.store.admits_quote(row) {
                    lemma_missing_then_pushed(run.store.quotes, row, quote_from(quote.id@));
                }
            },
        }
    }
}

/// After the annotations were looked at, each is settled; authors, books and
/// chapters are as they were.
pub proof fn lemma_ibooks_quotes_grow(
    run: Run,
    quotes: Seq<IBooksQuote>,
    now: Timestamp,
    ids: Seq<String>,
)
    ensures
        ibooks_quotes(run, quotes, now, ids) matches Ok(next) ==> {
            &&& next.store.extends(run.store)
            &&& next.store.authors == run.store.authors
            &&& next.store.books == run.store.books
            &&& next.store.chapters == run.store.chapters
            &&& annotations_settled(next.store.quotes, next.store.books, quotes)
        },
    decreases quotes.len(),
{
    if quotes.len() > 0 {
        lemma_ibooks_quote_step_grows(run, quotes[0], now, ids);
        match ibooks_quote_step(run, quotes[0], now, ids) {
            Err(_) => {},
            Ok(mid) => {
                let rest = quotes.drop_first();
                lemma_ibooks_quotes_grow(mid, rest, now, ids);
                match ibooks_quotes(mid, rest, now, ids) {
                    Err(_) => {},
                    Ok(next) => {
                        if first_from(mid.store.quotes, quote_from(quotes[0].id@), 0) is Some {
                            lemma_found_stays(
                                mid.store.quotes,
                                next.store.quotes,
                                quote_from(quotes[0].id@),
                            );
                        }
                        assert forall|t: int| 0 <= t < quotes.len() implies {
                            ||| first_from(
                                next.store.quotes,
                                quote_from((#[trigger] quotes[t]).id@),
                                0,
                            ) is Some
                            ||| owner_of(next.store.books, quotes[t].book_id@) is None
                        } by {
                            if t > 0 {
                                assert(quotes[t] == rest[t - 1]);
                            }
                        }
                    },
                }
            },
        }
    }
}

/// Books without annotations and books that the store knows are passed
/// over.
pub proof fn lemma_known_ibooks_books_pass(
    run: Run,
    quotes: Seq<IBooksQuote>,
    books: Seq<IBooksBookAuthor>,
    now: Timestamp,
    ids: Seq<String>,
)
    requires
        annotated_books_known(run.store.books, quotes, books),
    ensures
        ibooks_books(run, quotes, books, now, ids) == Ok::<Run, Failure>(run),
    decreases books.len(),
{
    if books.len() > 0 {
        let rest = books.drop_first();
        assert forall|i: int| 0 <= i < rest.len() implies {
            ||| first_from(quotes, annotation_in((#[trigger] rest[i]).id@), 0) is None
            ||| first_from(run.store.books, book_from(rest[i].id@), 0) is Some
        } by {
        }
        lemma_known_ibooks_books_pass(run, quotes, rest, now, ids);
    }
}

/// Annotations that are settled are passed over.
pub proof fn lemma_settled_annotations_pass(
    run: Run,
    quotes: Seq<IBooksQuote>,
    now: Timestamp,
    ids: Seq<String>,
)
    requires
        annotations_settled(run.store.quotes, run.store.books, quotes),
    ensures
        ibooks_quotes(run, quotes, now, ids) == Ok::<Run, Failure>(run),
    decreases quotes.len(),
{
    if quotes.len() > 0 {
        let rest = quotes.drop_first();
        assert forall|t: int| 0 <= t < rest.len() implies {
            ||| first_from(run.store.quotes, quote_from((#[trigger] rest[t]).id@), 0) is Some
            ||| owner_of(run.store.books, rest[t].book_id@) is None
        } by {
        }
        lemma_settled_annotations_pass(run, rest, now, ids);
    }
}

/// A run only adds rows, and a run that fails leaves the store as it was.
pub proof fn law_ibooks_import_only_adds(
    store: StoreView,
    export: IBooksExport,
    now: Timestamp,
    ids: Seq<String>,
)
    ensures
        ibooks_outcome(store, export, now, ids).1.extends(store),
        ibooks_outcome(store, export, now, ids).0 is Err ==> ibooks_outcome(
            store,
            export,
            now,
            ids,
        ).1 == store,
{
    lemma_ibooks_books_grow(fresh_run(store), export.quotes@, export.books@, now, ids);
    match ibooks_books(fresh_run(store), export.quotes@, export.books@, now, ids) {
        Err(_) => {},
        Ok(booked) => {
            lemma_ibooks_quotes_grow(booked, export.quotes@, now, ids);
        },
    }
}

/// Importing the same books and annotations a second time adds nothing:
/// after a run that succeeded, a run over the same export, at whatever time
/// and with whatever identifiers on offer, succeeds, counts no new book and
/// no new quote, and leaves the store as the first run left it.
pub proof fn law_ibooks_import_idempotent(
    store: StoreView,
    export: IBooksExport,
    first_now: Timestamp,
    first_ids: Seq<String>,
    second_now: Timestamp,
    second_ids: Seq<String>,
)
    requires
        ibooks_outcome(store, export, first_now, first_ids).0 is Ok,
    ensures
        ibooks_outcome(
            ibooks_outcome(store, export, first_now, first_ids).1,
            export,
            second_now,
            second_ids,
        ) == (
            Ok::<ImportSummary, Failure>(ImportSummary { new_books: 0, new_quotes: 0 }),
            ibooks_outcome(store, export, first_now, first_ids).1,
        ),
{
    let booked = ibooks_books(
        fresh_run(store),
        export.quotes@,
        export.books@,
        first_now,
        first_ids,
    )->Ok_0;
    let done = ibooks_quotes(booked, export.quotes@, first_now, first_ids)->Ok_0;
    lemma_ibooks_books_grow(fresh_run(store), export.quotes@, export.books@, first_now, first_ids);
    lemma_ibooks_quotes_grow(booked, export.quotes@, first_now, first_ids);
    let again = fresh_run(done.store);
    lemma_known_ibooks_books_pass(
        again,
        export.quotes@,
        export.books@,
        second_now,
        second_ids,
    );
    lemma_settled_annotations_pass(again, export.quotes@, second_now, second_ids);
}

/// An annotation that becomes a quote and bears the reader's words leaves
/// one new note, which names that quote; one without words leaves the notes
/// as they were.
pub proof fn law_ibooks_note_linkage(run: Run, quote: IBooksQuote, now: Timestamp, ids: Seq<String>)
    requires
        ibooks_quote_step(run, quote, now, ids) is Ok,
    ensures
        ({
            let next = ibooks_quote_step(run, quote, now, ids)->Ok_0;
            let skipped = first_from(run.store.quotes, quote_from(quote.id@), 0) is Some
                || owner_of(run.store.books, quote.book_id@) is None;
            &&& skipped ==> next == run
            &&& !ibooks_has_note(quote) ==> next.store.notes == run.store.notes
            &&& !skipped ==> {
                &&& next.store.quotes.len() == run.store.quotes.len() + 1
                &&& next.store.quotes.last().original_id == Some(quote.id)
                &&& next.store.quotes.last().content == Some(quote.content)
            }
            &&& !skipped && ibooks_has_note(quote) ==> {
                &&& next.store.notes.len() == run.store.notes.len() + 1
                &&& next.store.notes.last().quote_id == Some(next.store.quotes.last().id)
                &&& next.store.notes.last().content == quote.annotation
            }
        }),
{
}

} // verus!
