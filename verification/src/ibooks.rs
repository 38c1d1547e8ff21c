//! Import of what Apple Books keeps: the books of its library and the
//! annotations made in them, with times counted from the Core Data epoch.

use crate::datetime::{core_data_instant, core_data_to_naive_datetime, Timestamp};
use crate::error::{refused, FAILED_BOOK, FAILED_NOTE, FAILED_QUOTE, Failure, ImportError};
use crate::models::{clone_text, Note, Quote};
use crate::reconcile::{
    book_author_resolved, book_links_hold, fresh_run, ids_for, ledger_sound,
    lemma_book_links_survive, outcome_view, owner_of, owning_book, refusal, resolve_book_author,
    rows_at_most, run_of, take_id, BookLink, ImportSummary, Ledger, Run,
};
use crate::store::{
    book_from, first_from, first_match, get_book_by_original_id, get_quote_by_original_id,
    insert_book_with_defaults, insert_note, insert_quote, lemma_missing_then_pushed, new_book,
    quote_from, Store, StoreView,
};
use vstd::prelude::*;

verus! {

/// A book of the library with its author, who may be unknown.
#[derive(Debug, Clone, PartialEq, Eq)]
pub struct IBooksBookAuthor {
    pub id: String,
    pub author: Option<String>,
    pub title: String,
}

/// A time as Core Data keeps it, split into the whole seconds since
/// 2001-01-01T00:00:00 and the nanoseconds past them.
#[derive(Debug, Clone, Copy, PartialEq, Eq, Structural)]
pub struct CoreDataTime {
    pub seconds: i64,
    pub nanos: u32,
}

/// An annotation: the marked text, the book that it was made in, and the
/// reader's own words on it where there are any.
#[derive(Debug, Clone, PartialEq, Eq)]
pub struct IBooksQuote {
    pub id: String,
    pub book_id: String,
    pub content: String,
    pub created_at: CoreDataTime,
    pub modified_at: Option<CoreDataTime>,
    pub annotation: Option<String>,
}

/// All that the two databases of Apple Books hold for an import.
#[derive(Debug, Clone, PartialEq, Eq)]
pub struct IBooksExport {
    pub books: Vec<IBooksBookAuthor>,
    pub quotes: Vec<IBooksQuote>,
}

/// Annotations made in the book that Apple Books knows as `book`.
pub open spec fn annotation_in(book: Seq<char>) -> spec_fn(IBooksQuote) -> bool {
    |q: IBooksQuote| q.book_id@ == book
}

/// The time that a Core Data value names, or `fallback` where the calendar
/// does not reach it.
pub open spec fn core_data_or(time: CoreDataTime, fallback: Timestamp) -> Timestamp {
    match core_data_instant(time.seconds as int, time.nanos as int) {
        Some(t) => t,
        None => fallback,
    }
}

/// When an annotation was made and when it was last changed.
pub open spec fn ibooks_dates(quote: IBooksQuote, now: Timestamp) -> (Timestamp, Timestamp) {
    let created = core_data_or(quote.created_at, now);
    (
        created,
        match quote.modified_at {
            Some(time) => core_data_or(time, now),
            None => created,
        },
    )
}

/// Whether the reader wrote something on an annotation.
pub open spec fn ibooks_has_note(quote: IBooksQuote) -> bool {
    quote.annotation is Some && quote.annotation->0@.len() > 0
}

/// The quote that stands for an annotation in the book `owner`.
pub open spec fn ibooks_quote_row(
    id: String,
    quote: IBooksQuote,
    owner: (String, Option<String>),
    now: Timestamp,
) -> Quote {
    Quote {
        id,
        book_id: Some(owner.0),
        author_id: owner.1,
        chapter_id: None,
        chapter_progress: None,
        content: Some(quote.content),
        starred: Some(0),
        created_at: ibooks_dates(quote, now).0,
        updated_at: ibooks_dates(quote, now).1,
        imported_at: Some(now),
        deleted_at: None,
        original_id: Some(quote.id),
    }
}

/// The note that stands for the reader's words on an annotation, tied to the
/// quote made of it.
pub open spec fn ibooks_note_row(id: String, quote: IBooksQuote, row: Quote) -> Note {
    Note {
        id,
        book_id: row.book_id,
        author_id: row.author_id,
        quote_id: Some(row.id),
        content: quote.annotation,
        created_at: row.created_at,
        updated_at: row.updated_at,
        deleted_at: None,
    }
}

/// The run after one book of the library: a book without annotations, or one
/// that the store knows, changes nothing; for a new one the author is
/// resolved and the book is added and counted.
pub open spec fn ibooks_book_step(
    run: Run,
    quotes: Seq<IBooksQuote>,
    book: IBooksBookAuthor,
    now: Timestamp,
    ids: Seq<String>,
) -> Result<Run, Failure> {
    if first_from(quotes, annotation_in(book.id@), 0) is None {
        Ok(run)
    } else if first_match(run.store.books, book_from(book.id@)) is Some {
        Ok(run)
    } else {
        match book_author_resolved(run, book.author, now, ids) {
            Err(e) => Err(e),
            Ok((known, author_id)) => {
                let row = new_book(
                    ids[known.used as int],
                    book.title,
                    author_id,
                    Some(book.id),
                    now,
                );
                if known.used < ids.len() && known.store.admits_book(row) {
                    Ok(
                        Run {
                            store: known.store.with_book(row),
                            new_books: known.new_books + 1,
                            used: known.used + 1,
                            ..known
                        },
                    )
                } else {
                    Err(refusal(FAILED_BOOK))
                }
            },
        }
    }
}

/// The run after the books of the library, one after the other.
pub open spec fn ibooks_books(
    run: Run,
    quotes: Seq<IBooksQuote>,
    books: Seq<IBooksBookAuthor>,
    now: Timestamp,
    ids: Seq<String>,
) -> Result<Run, Failure>
    decreases books.len(),
{
    if books.len() == 0 {
        Ok(run)
    } else {
        match ibooks_book_step(run, quotes, books[0], now, ids) {
            Ok(next) => ibooks_books(next, quotes, books.drop_first(), now, ids),
            Err(e) => Err(e),
        }
    }
}

/// The run after one annotation: one that the store knows, or whose book it
/// does not know, changes nothing; a new one becomes a quote that is
/// counted, and the reader's words on it a note on that quote.
pub open spec fn ibooks_quote_step(
    run: Run,
    quote: IBooksQuote,
    now: Timestamp,
    ids: Seq<String>,
) -> Result<Run, Failure> {
    if first_match(run.store.quotes, quote_from(quote.id@)) is Some {
        Ok(run)
    } else {
        match owner_of(run.store.books, quote.book_id@) {
            None => Ok(run),
            Some(owner) => {
                let row = ibooks_quote_row(ids[run.used as int], quote, owner, now);
                if run.used < ids.len() && run.store.admits_quote(row) {
                    let quoted = Run {
                        store: run.store.with_quote(row),
                        new_quotes: run.new_quotes + 1,
                        used: run.used + 1,
                        ..run
                    };
                    if !ibooks_has_note(quote) {
                        Ok(quoted)
                    } else {
                        let note = ibooks_note_row(ids[quoted.used as int], quote, row);
                        if quoted.used < ids.len() && quoted.store.admits_note(note) {
                            Ok(
                                Run {
                                    store: quoted.store.with_note(note),
                                    used: quoted.used + 1,
                                    ..quoted
                                },
                            )
                        } else {
                            Err(refusal(FAILED_NOTE))
                        }
                    }
                } else {
                    Err(refusal(FAILED_QUOTE))
                }
            },
        }
    }
}

/// The run after the annotations, one after the other.
pub open spec fn ibooks_quotes(
    run: Run,
    quotes: Seq<IBooksQuote>,
    now: Timestamp,
    ids: Seq<String>,
) -> Result<Run, Failure>
    decreases quotes.len(),
{
    if quotes.len() == 0 {
        Ok(run)
    } else {
        match ibooks_quote_step(run, quotes[0], now, ids) {
            Ok(next) => ibooks_quotes(next, quotes.drop_first(), now, ids),
            Err(e) => Err(e),
        }
    }
}

/// A whole run: the books that have annotations first, the annotations
/// after them.
pub open spec fn ibooks_run(
    store: StoreView,
    export: IBooksExport,
    now: Timestamp,
    ids: Seq<String>,
) -> Result<Run, Failure> {
    match ibooks_books(fresh_run(store), export.quotes@, export.books@, now, ids) {
        Ok(booked) => ibooks_quotes(booked, export.quotes@, now, ids),
        Err(e) => Err(e),
    }
}

/// What an import returns and leaves behind: the counts and the grown tables
/// where the run succeeds, the failure and the tables as they were where it
/// does not.
pub open spec fn ibooks_outcome(
    store: StoreView,
    export: IBooksExport,
    now: Timestamp,
    ids: Seq<String>,
) -> (Result<ImportSummary, Failure>, StoreView) {
    match ibooks_run(store, export, now, ids) {
        Ok(run) => (
            Ok(
                ImportSummary {
                    new_books: run.new_books as usize,
                    new_quotes: run.new_quotes as usize,
                },
            ),
            run.store,
        ),
        Err(e) => (Err(e), store),
    }
}

/// The time that a Core Data value names, or `fallback`.
pub fn core_data_time_or(time: &CoreDataTime, fallback: Timestamp) -> (r: Timestamp)
    ensures
        r == core_data_or(*time, fallback),
{
    match core_data_to_naive_datetime(time.seconds, time.nanos) {
        Some(t) => t,
        None => fallback,
    }
}

/// Whether an annotation was made in the book that Apple Books knows as
/// `book`.
fn has_annotation(book: &String, quotes: &Vec<IBooksQuote>) -> (r: bool)
    ensures
        r == first_from(quotes@, annotation_in(book@), 0) is Some,
{
    let ghost wanted = annotation_in(book@);
    let mut t: usize = 0;
    while t < quotes.len()
        invariant
            t <= quotes.len(),
            wanted == annotation_in(book@),
            first_from(quotes@, wanted, 0) == first_from(quotes@, wanted, t as int),
        decreases quotes.len() - t,
    {
        if quotes[t].book_id == *book {
            return true;
        }
        t += 1;
    }
    false
}

/// Looks at one book of the library.
fn import_ibooks_book(
    book: &IBooksBookAuthor,
    quotes: &Vec<IBooksQuote>,
    now: Timestamp,
    ids: &Vec<String>,
    book_links: &mut Vec<BookLink>,
    ledger: &mut Ledger,
    store: &mut Store,
) -> (r: Result<(), ImportError>)
    requires
        book_links_hold(old(book_links)@, old(store)@.books),
        ledger_sound(*old(ledger), ids@),
    ensures
        match ibooks_book_step(run_of(old(store)@, *old(ledger)), quotes@, *book, now, ids@) {
            Ok(run) => r is Ok && run_of(final(store)@, *final(ledger)) == run,
            Err(e) => r is Err && r->Err_0@ == e,
        },
        book_links_hold(final(book_links)@, final(store)@.books),
        ledger_sound(*final(ledger), ids@),
        final(store)@.extends(old(store)@),
{
    if !has_annotation(&book.id, quotes) {
        return Ok(());
    }
    match get_book_by_original_id(&book.id, store) {
        Some(existing) => {
            book_links.push(
                BookLink {
                    origin: book.id.clone(),
                    book_id: existing.id.clone(),
                    author_id: clone_text(&existing.author_id),
                },
            );
            return Ok(());
        },
        None => {},
    }
    let author_id = match resolve_book_author(&book.author, now, ids, ledger, store) {
        Ok(a) => a,
        Err(e) => {
            return Err(e);
        },
    };
    let id = match take_id(ids, ledger) {
        Some(id) => id,
        None => {
            return Err(refused(FAILED_BOOK));
        },
    };
    let ghost known = store@;
    let ghost row = new_book(id, book.title, author_id, Some(book.id), now);
    match insert_book_with_defaults(
        book.title.clone(),
        clone_text(&author_id),
        Some(book.id.clone()),
        id.clone(),
        now,
        store,
    ) {
        Ok(()) => {},
        Err(_) => {
            return Err(refused(FAILED_BOOK));
        },
    }
    ledger.new_books = ledger.new_books + 1;
    proof {
        lemma_book_links_survive(book_links@, known.books, store@.books);
        lemma_missing_then_pushed(known.books, row, book_from(book.id@));
    }
    book_links.push(BookLink { origin: book.id.clone(), book_id: id, author_id });
    Ok(())
}

/// Looks at one annotation.
fn import_ibooks_quote(
    quote: &IBooksQuote,
    now: Timestamp,
    ids: &Vec<String>,
    book_links: &Vec<BookLink>,
    ledger: &mut Ledger,
    store: &mut Store,
) -> (r: Result<(), ImportError>)
    requires
        book_links_hold(book_links@, old(store)@.books),
        ledger_sound(*old(ledger), ids@),
    ensures
        match ibooks_quote_step(run_of(old(store)@, *old(ledger)), *quote, now, ids@) {
            Ok(run) => r is Ok && run_of(final(store)@, *final(ledger)) == run,
            Err(e) => r is Err && r->Err_0@ == e,
        },
        ledger_sound(*final(ledger), ids@),
        final(store)@.extends(old(store)@),
        final(store)@.books == old(store)@.books,
{
    if get_quote_by_original_id(&quote.id, store).is_some() {
        return Ok(());
    }
    let (book_id, author_id) = match owning_book(&quote.book_id, book_links, store) {
        Some(owner) => owner,
        None => {
            return Ok(());
        },
    };
    let created_at = core_data_time_or(&quote.created_at, now);
    let updated_at = match &quote.modified_at {
        Some(time) => core_data_time_or(time, now),
        None => created_at,
    };
    let id = match take_id(ids, ledger) {
        Some(id) => id,
        None => {
            return Err(refused(FAILED_QUOTE));
        },
    };
    let row = Quote {
        id: id.clone(),
        book_id: Some(book_id.clone()),
        author_id: clone_text(&author_id),
        chapter_id: None,
        chapter_progress: None,
        content: Some(quote.content.clone()),
        starred: Some(0),
        created_at,
        updated_at,
        imported_at: Some(now),
        deleted_at: None,
        original_id: Some(quote.id.clone()),
    };
    match insert_quote(row, store) {
        Ok(()) => {},
        Err(_) => {
            return Err(refused(FAILED_QUOTE));
        },
    }
    ledger.new_quotes = ledger.new_quotes + 1;
    let noted = match &quote.annotation {
        Some(words) => !words.as_str().is_empty(),
        None => false,
    };
    if !noted {
        return Ok(());
    }
    let note_id = match take_id(ids, ledger) {
        Some(id) => id,
        None => {
            return Err(refused(FAILED_NOTE));
        },
    };
    let note = Note {
        id: note_id,
        book_id: Some(book_id),
        author_id,
        quote_id: Some(id),
        content: clone_text(&quote.annotation),
        created_at,
        updated_at,
        deleted_at: None,
    };
    match insert_note(note, store) {
        Ok(()) => {},
        Err(_) => {
            return Err(refused(FAILED_NOTE));
        },
    }
    Ok(())
}

/// Runs over the export without undoing anything where it fails.
fn run_ibooks(
    store: &mut Store,
    export: &IBooksExport,
    now: Timestamp,
    ids: &Vec<String>,
) -> (r: Result<ImportSummary, ImportError>)
    ensures
        match ibooks_run(old(store)@, *export, now, ids@) {
            Ok(run) => r == Ok::<ImportSummary, ImportError>(
                ImportSummary {
                    new_books: run.new_books as usize,
                    new_quotes: run.new_quotes as usize,
                },
            ) && final(store)@ == run.store,
            Err(e) => r is Err && r->Err_0@ == e,
        },
        final(store)@.extends(old(store)@),
{
    let mut ledger = Ledger { new_books: 0, new_quotes: 0, used: 0 };
    let mut book_links: Vec<BookLink> = Vec::new();
    assert(export.books@.skip(0) =~= export.books@);
    let mut i: usize = 0;
    while i < export.books.len()
        invariant
            i <= export.books.len(),
            book_links_hold(book_links@, store@.books),
            ledger_sound(ledger, ids@),
            store@.extends(old(store)@),
            ibooks_books(fresh_run(old(store)@), export.quotes@, export.books@, now, ids@)
                == ibooks_books(
                run_of(store@, ledger),
                export.quotes@,
                export.books@.skip(i as int),
                now,
                ids@,
            ),
        decreases export.books.len() - i,
    {
        assert(export.books@.skip(i as int).drop_first() =~= export.books@.skip(i as int + 1));
        match import_ibooks_book(
            &export.books[i],
            &export.quotes,
            now,
            ids,
            &mut book_links,
            &mut ledger,
            store,
        ) {
            Ok(()) => {},
            Err(e) => {
                return Err(e);
            },
        }
        i += 1;
    }
    assert(export.quotes@.skip(0) =~= export.quotes@);
    let mut t: usize = 0;
    while t < export.quotes.len()
        invariant
            t <= export.quotes.len(),
            book_links_hold(book_links@, store@.books),
            ledger_sound(ledger, ids@),
            store@.extends(old(store)@),
            ibooks_run(old(store)@, *export, now, ids@) == ibooks_quotes(
                run_of(store@, ledger),
                export.quotes@.skip(t as int),
                now,
                ids@,
            ),
        decreases export.quotes.len() - t,
    {
        assert(export.quotes@.skip(t as int).drop_first() =~= export.quotes@.skip(t as int + 1));
        match import_ibooks_quote(&export.quotes[t], now, ids, &book_links, &mut ledger, store) {
            Ok(()) => {},
            Err(e) => {
                return Err(e);
            },
        }
        t += 1;
    }
    Ok(ImportSummary { new_books: ledger.new_books, new_quotes: ledger.new_quotes })
}

/// Imports the books and annotations of Apple Books into `store`. New rows
/// take their identifiers from `ids` in order, and `now` as the time of the
/// import and in place of a time that the calendar does not reach. Where the
/// run fails the store is left as it was.
pub fn import_ibooks_with_ids(
    store: &mut Store,
    export: &IBooksExport,
    now: Timestamp,
    ids: &Vec<String>,
) -> (r: Result<ImportSummary, ImportError>)
    ensures
        (outcome_view(r), final(store)@) == ibooks_outcome(
            old(store)@,
            *export,
            now,
            ids@,
        ),
        r is Err ==> final(store)@ == old(store)@,
{
    let mark = store.savepoint();
    match run_ibooks(store, export, now, ids) {
        Ok(summary) => Ok(summary),
        Err(e) => {
            store.rollback(&mark);
            Err(e)
        },
    }
}

/// How many rows an import of `export` can add at most: an author and a
/// book for each book, a quote and a note for each annotation.
pub open spec fn ibooks_rows_at_most(export: IBooksExport) -> nat {
    2 * (export.books@.len() + export.quotes@.len())
}

/// Imports the books and annotations of Apple Books into `store` at the
/// time `now`, under identifiers drawn at random. Where the run fails the
/// store is left as it was.
pub fn import_ibooks(store: &mut Store, export: &IBooksExport, now: Timestamp) -> (r: Result<
    ImportSummary,
    ImportError,
>)
    ensures
        r is Err ==> final(store)@ == old(store)@,
        ibooks_rows_at_most(*export) > usize::MAX ==> r is Err && r->Err_0@ == refusal(
            crate::error::TOO_MANY_RECORDS,
        ),
        ibooks_rows_at_most(*export) <= usize::MAX ==> exists|ids: Seq<String>|
            #![auto]
            ids.len() == ibooks_rows_at_most(*export) && (outcome_view(r), final(store)@)
                == ibooks_outcome(old(store)@, *export, now, ids),
{
    let rows = match export.books.len().checked_add(export.quotes.len()) {
        Some(pairs) => rows_at_most(pairs, 0),
        None => None,
    };
    match ids_for(rows) {
        Ok(ids) => import_ibooks_with_ids(store, export, now, &ids),
        Err(e) => Err(e),
    }
}

} // verus!
