//! Import of the entries of a Kindle clippings file. The file gives no
//! identifiers: a book is known by its title, a quote by its book and its
//! exact text.

use crate::clippings::{parse_clippings, Clipping, EntryKind};
use crate::datetime::Timestamp;
use crate::error::{refused, FAILED_BOOK, FAILED_NOTE, FAILED_QUOTE, Failure, ImportError};
use crate::models::{clone_text, Note, Quote};
use crate::reconcile::{
    book_author_resolved, book_links_hold, fresh_run, ids_for, ledger_sound,
    lemma_book_links_survive, outcome_view, owner_of, owning_book, refusal, resolve_book_author,
    rows_at_most, run_of, take_id, BookLink, ImportSummary, Ledger, Run,
};
use crate::store::{
    book_from, first_match, get_quote_by_book_and_content, insert_book_with_defaults, insert_note,
    insert_quote, lemma_missing_then_pushed, new_book, quote_saying, Store, StoreView,
};
use vstd::prelude::*;

verus! {

/// The run after the book of an entry was resolved, and the book's
/// identifier: that of the first book known by the title, or else the next
/// identifier on offer, under which the book is added and counted.
pub open spec fn kindle_book_resolved(
    run: Run,
    title: String,
    now: Timestamp,
    ids: Seq<String>,
) -> Result<(Run, String), Failure> {
    match owner_of(run.store.books, title@) {
        Some(owner) => Ok((run, owner.0)),
        None => {
            let row = new_book(ids[run.used as int], title, None, Some(title), now);
            if run.used < ids.len() && run.store.admits_book(row) {
                Ok(
                    (
                        Run {
                            store: run.store.with_book(row),
                            new_books: run.new_books + 1,
                            used: run.used + 1,
                            ..run
                        },
                        ids[run.used as int],
                    ),
                )
            } else {
                Err(refusal(FAILED_BOOK))
            }
        },
    }
}

/// The quote that stands for a highlight.
pub open spec fn kindle_quote_row(
    id: String,
    entry: Clipping,
    book_id: String,
    author_id: Option<String>,
    now: Timestamp,
) -> Quote {
    Quote {
        id,
        book_id: Some(book_id),
        author_id,
        chapter_id: None,
        chapter_progress: None,
        content: entry.content,
        starred: Some(0),
        created_at: entry.added_at,
        updated_at: entry.added_at,
        imported_at: Some(now),
        deleted_at: None,
        original_id: None,
    }
}

/// The note that stands for a note of the file. It hangs on the book, not
/// on a quote.
pub open spec fn kindle_note_row(
    id: String,
    entry: Clipping,
    book_id: String,
    author_id: Option<String>,
) -> Note {
    Note {
        id,
        book_id: Some(book_id),
        author_id,
        quote_id: None,
        content: entry.content,
        created_at: entry.added_at,
        updated_at: entry.added_at,
        deleted_at: None,
    }
}

/// The run after what an entry says was stored: a highlight with a text
/// that its book does not hold yet becomes a quote that is counted, a note
/// with a text becomes a note, and nothing else changes anything.
pub open spec fn kindle_entry_stored(
    run: Run,
    entry: Clipping,
    book_id: String,
    author_id: Option<String>,
    now: Timestamp,
    ids: Seq<String>,
) -> Result<Run, Failure> {
    if entry.content is None {
        Ok(run)
    } else {
        match entry.entry_type {
            EntryKind::Bookmark => Ok(run),
            EntryKind::Highlight => {
                let row = kindle_quote_row(ids[run.used as int], entry, book_id, author_id, now);
                if first_match(
                    run.store.quotes,
                    quote_saying(book_id@, entry.content->0@),
                ) is Some {
                    Ok(run)
                } else if run.used < ids.len() && run.store.admits_quote(row) {
                    Ok(
                        Run {
                            store: run.store.with_quote(row),
                            new_quotes: run.new_quotes + 1,
                            used: run.used + 1,
                            ..run
                        },
                    )
                } else {
                    Err(refusal(FAILED_QUOTE))
                }
            },
            EntryKind::Note => {
                let row = kindle_note_row(ids[run.used as int], entry, book_id, author_id);
                if run.used < ids.len() && run.store.admits_note(row) {
                    Ok(Run { store: run.store.with_note(row), used: run.used + 1, ..run })
                } else {
                    Err(refusal(FAILED_NOTE))
                }
            },
        }
    }
}

/// The run after one entry: its book and its author are resolved, then what
/// it says is stored.
pub open spec fn kindle_step(run: Run, entry: Clipping, now: Timestamp, ids: Seq<String>) -> Result<
    Run,
    Failure,
> {
    match kindle_book_resolved(run, entry.title, now, ids) {
        Err(e) => Err(e),
        Ok((booked, book_id)) => match book_author_resolved(booked, entry.author, now, ids) {
            Err(e) => Err(e),
            Ok((known, author_id)) => kindle_entry_stored(
                known,
                entry,
                book_id,
                author_id,
                now,
                ids,
            ),
        },
    }
}

/// The run after the entries, one after the other.
pub open spec fn kindle_entries(
    run: Run,
    entries: Seq<Clipping>,
    now: Timestamp,
    ids: Seq<String>,
) -> Result<Run, Failure>
    decreases entries.len(),
{
    if entries.len() == 0 {
        Ok(run)
    } else {
        match kindle_step(run, entries[0], now, ids) {
            Ok(next) => kindle_entries(next, entries.drop_first(), now, ids),
            Err(e) => Err(e),
        }
    }
}

/// What an import of entries returns and leaves behind: the counts and the
/// grown tables where the run succeeds, the failure and the tables as they
/// were where it does not.
pub open spec fn kindle_outcome(
    store: StoreView,
    entries: Seq<Clipping>,
    now: Timestamp,
    ids: Seq<String>,
) -> (Result<ImportSummary, Failure>, StoreView) {
    match kindle_entries(fresh_run(store), entries, now, ids) {
        Ok(run) => (
            Ok(
                ImportSummary {
                    new_books: run.new_books as usize,
                    new_quotes: run.new_quotes as usize,
                },
            ),
            run.store,
        ),
        Err(e) => (Err(e), store),
    }
}

/// Resolves the book of an entry by its title, and adds the book where the
/// title is new.
fn resolve_kindle_book(
    title: &String,
    now: Timestamp,
    ids: &Vec<String>,
    book_links: &mut Vec<BookLink>,
    ledger: &mut Ledger,
    store: &mut Store,
) -> (r: Result<String, ImportError>)
    requires
        book_links_hold(old(book_links)@, old(store)@.books),
        ledger_sound(*old(ledger), ids@),
    ensures
        match kindle_book_resolved(run_of(old(store)@, *old(ledger)), *title, now, ids@) {
            Ok((run, id)) => r == Ok::<String, ImportError>(id) && run_of(
                final(store)@,
                *final(ledger),
            ) == run,
            Err(e) => r is Err && r->Err_0@ == e,
        },
        book_links_hold(final(book_links)@, final(store)@.books),
        ledger_sound(*final(ledger), ids@),
        final(store)@.extends(old(store)@),
{
    match owning_book(title, book_links, store) {
        Some(owner) => {
            return Ok(owner.0);
        },
        None => {},
    }
    let id = match take_id(ids, ledger) {
        Some(id) => id,
        None => {
            return Err(refused(FAILED_BOOK));
        },
    };
    let ghost before = store@;
    let ghost row = new_book(id, *title, None, Some(*title), now);
    match insert_book_with_defaults(
        title.clone(),
        None,
        Some(title.clone()),
        id.clone(),
        now,
        store,
    ) {
        Ok(()) => {},
        Err(_) => {
            return Err(refused(FAILED_BOOK));
        },
    }
    ledger.new_books = ledger.new_books + 1;
    proof {
        lemma_book_links_survive(book_links@, before.books, store@.books);
        lemma_missing_then_pushed(before.books, row, book_from(title@));
    }
    book_links.push(BookLink { origin: title.clone(), book_id: id.clone(), author_id: None });
    Ok(id)
}

/// Stores what an entry says.
fn store_kindle_entry(
    entry: &Clipping,
    book_id: String,
    author_id: Option<String>,
    now: Timestamp,
    ids: &Vec<String>,
    ledger: &mut Ledger,
    store: &mut Store,
) -> (r: Result<(), ImportError>)
    requires
        ledger_sound(*old(ledger), ids@),
    ensures
        match kindle_entry_stored(
            run_of(old(store)@, *old(ledger)),
            *entry,
            book_id,
            author_id,
            now,
            ids@,
        ) {
            Ok(run) => r is Ok && run_of(final(store)@, *final(ledger)) == run,
            Err(e) => r is Err && r->Err_0@ == e,
        },
        ledger_sound(*final(ledger), ids@),
        final(store)@.extends(old(store)@),
        final(store)@.books == old(store)@.books,
{
    let text = match &entry.content {
        Some(text) => text,
        None => {
            return Ok(());
        },
    };
    match entry.entry_type {
        EntryKind::Bookmark => Ok(()),
        EntryKind::Highlight => {
            if get_quote_by_book_and_content(&book_id, text, store).is_some() {
                return Ok(());
            }
            let id = match take_id(ids, ledger) {
                Some(id) => id,
                None => {
                    return Err(refused(FAILED_QUOTE));
                },
            };
            let row = Quote {
                id,
                book_id: Some(book_id),
                author_id,
                chapter_id: None,
                chapter_progress: None,
                content: clone_text(&entry.content),
                starred: Some(0),
                created_at: entry.added_at,
                updated_at: entry.added_at,
                imported_at: Some(now),
                deleted_at: None,
                original_id: None,
            };
            match insert_quote(row, store) {
                Ok(()) => {},
                Err(_) => {
                    return Err(refused(FAILED_QUOTE));
                },
            }
            ledger.new_quotes = ledger.new_quotes + 1;
            Ok(())
        },
        EntryKind::Note => {
            let id = match take_id(ids, ledger) {
                Some(id) => id,
                None => {
                    return Err(refused(FAILED_NOTE));
                },
            };
            let row = Note {
                id,
                book_id: Some(book_id),
                author_id,
                quote_id: None,
                content: clone_text(&entry.content),
                created_at: entry.added_at,
                updated_at: entry.added_at,
                deleted_at: None,
            };
            match insert_note(row, store) {
                Ok(()) => {},
                Err(_) => {
                    return Err(refused(FAILED_NOTE));
                },
            }
            Ok(())
        },
    }
}

/// Looks at one entry.
fn import_clipping(
    entry: &Clipping,
    now: Timestamp,
    ids: &Vec<String>,
    book_links: &mut Vec<BookLink>,
    ledger: &mut Ledger,
    store: &mut Store,
) -> (r: Result<(), ImportError>)
    requires
        book_links_hold(old(book_links)@, old(store)@.books),
        ledger_sound(*old(ledger), ids@),
    ensures
        match kindle_step(run_of(old(store)@, *old(ledger)), *entry, now, ids@) {
            Ok(run) => r is Ok && run_of(final(store)@, *final(ledger)) == run,
            Err(e) => r is Err && r->Err_0@ == e,
        },
        book_links_hold(final(book_links)@, final(store)@.books),
        ledger_sound(*final(ledger), ids@),
        final(store)@.extends(old(store)@),
{
    let book_id = match resolve_kindle_book(&entry.title, now, ids, book_links, ledger, store) {
        Ok(id) => id,
        Err(e) => {
            return Err(e);
        },
    };
    let author_id = match resolve_book_author(&entry.author, now, ids, ledger, store) {
        Ok(a) => a,
        Err(e) => {
            return Err(e);
        },
    };
    let r = store_kindle_entry(entry, book_id, author_id, now, ids, ledger, store);
    r
}

/// Runs over the entries without undoing anything where it fails.
fn run_clippings(
    store: &mut Store,
    entries: &Vec<Clipping>,
    now: Timestamp,
    ids: &Vec<String>,
) -> (r: Result<ImportSummary, ImportError>)
    ensures
        match kindle_entries(fresh_run(old(store)@), entries@, now, ids@) {
            Ok(run) => r == Ok::<ImportSummary, ImportError>(
                ImportSummary {
                    new_books: run.new_books as usize,
                    new_quotes: run.new_quotes as usize,
                },
            ) && final(store)@ == run.store,
            Err(e) => r is Err && r->Err_0@ == e,
        },
        final(store)@.extends(old(store)@),
{
    let mut ledger = Ledger { new_books: 0, new_quotes: 0, used: 0 };
    let mut book_links: Vec<BookLink> = Vec::new();
    assert(entries@.skip(0) =~= entries@);
    let mut i: usize = 0;
    while i < entries.len()
        invariant
            i <= entries.len(),
            book_links_hold(book_links@, store@.books),
            ledger_sound(ledger, ids@),
            store@.extends(old(store)@),
            kindle_entries(fresh_run(old(store)@), entries@, now, ids@) == kindle_entries(
                run_of(store@, ledger),
                entries@.skip(i as int),
                now,
                ids@,
            ),
        decreases entries.len() - i,
    {
        assert(entries@.skip(i as int).drop_first() =~= entries@.skip(i as int + 1));
        match import_clipping(&entries[i], now, ids, &mut book_links, &mut ledger, store) {
            Ok(()) => {},
            Err(e) => {
                return Err(e);
            },
        }
        i += 1;
    }
    Ok(ImportSummary { new_books: ledger.new_books, new_quotes: ledger.new_quotes })
}

/// Imports the entries of a clippings file into `store`. New rows take
/// their identifiers from `ids` in order, and `now` as the time of the
/// import. Where the run fails the store is left as it was.
pub fn import_clippings_with_ids(
    store: &mut Store,
    entries: &Vec<Clipping>,
    now: Timestamp,
    ids: &Vec<String>,
) -> (r: Result<ImportSummary, ImportError>)
    ensures
        (outcome_view(r), final(store)@) == kindle_outcome(old(store)@, entries@, now, ids@),
        r is Err ==> final(store)@ == old(store)@,
{
    let mark = store.savepoint();
    match run_clippings(store, entries, now, ids) {
        Ok(summary) => Ok(summary),
        Err(e) => {
            store.rollback(&mark);
            Err(e)
        },
    }
}

/// Reads a clippings file from its text and imports its entries into
/// `store`, under the identifiers of `ids`. A file that cannot be read
/// leaves the store untouched, as does a run that fails.
pub fn import_clippings_text(
    store: &mut Store,
    text: &str,
    now: Timestamp,
    ids: &Vec<String>,
) -> (r: Result<ImportSummary, ImportError>)
    ensures
        match crate::clippings::clippings_of(text@) {
            Err(message) => r is Err && r->Err_0@ == Failure::InvalidFormat(message),
            Ok(parsed) => exists|entries: Seq<Clipping>|
                #![auto]
                crate::clippings::views(entries) == parsed && (outcome_view(r), final(store)@)
                    == kindle_outcome(old(store)@, entries, now, ids@),
        },
        r is Err ==> final(store)@ == old(store)@,
{
    match parse_clippings(text) {
        Err(e) => Err(e),
        Ok(entries) => import_clippings_with_ids(store, &entries, now, ids),
    }
}

/// How many rows an import of `entries` entries can add at most: a book, an
/// author and a quote or a note for each.
pub open spec fn kindle_rows_at_most(entries: int) -> int {
    3 * entries
}

/// Imports the entries of a clippings file into `store` at the time `now`,
/// under identifiers drawn at random. Where the run fails the store is left
/// as it was.
pub fn import_clippings(store: &mut Store, entries: &Vec<Clipping>, now: Timestamp) -> (r: Result<
    ImportSummary,
    ImportError,
>)
    ensures
        r is Err ==> final(store)@ == old(store)@,
        kindle_rows_at_most(entries@.len() as int) > usize::MAX ==> r is Err && r->Err_0@
            == refusal(crate::error::TOO_MANY_RECORDS),
        kindle_rows_at_most(entries@.len() as int) <= usize::MAX ==> exists|ids: Seq<String>|
            #![auto]
            ids.len() == kindle_rows_at_most(entries@.len() as int) && (
                outcome_view(r),
                final(store)@,
            ) == kindle_outcome(old(store)@, entries@, now, ids),
{
    match ids_for(rows_at_most(entries.len(), entries.len())) {
        Ok(ids) => import_clippings_with_ids(store, entries, now, &ids),
        Err(e) => Err(e),
    }
}

} // verus!
