//! What holds of every import of a Kobo export: a run only adds rows, a
//! second run over the same export adds none, and notes hang on the quotes
//! of their bookmarks.

use crate::datetime::Timestamp;
use crate::kobo::{
    kobo_book_step, kobo_books, kobo_chapter_step, kobo_chapters, kobo_dates, kobo_is_note,
    kobo_item_step, kobo_items, kobo_outcome, kobo_quote_at, KOBO_NOTE, KoboBook, KoboChapter,
    KoboExport, KoboQuote,
};
use crate::models::{Book, Quote};
use crate::reconcile::{book_author_resolved, fresh_run, ImportSummary, Run};
use crate::store::{
    book_from, first_from, lemma_found_stays, lemma_missing_then_pushed, new_book, quote_from,
    StoreView,
};
use vstd::prelude::*;

verus! {

/// Whether the table of books holds a book for every book of an export.
pub open spec fn books_known(table: Seq<Book>, books: Seq<KoboBook>) -> bool {
    forall|i: int|
        0 <= i < books.len() ==> first_from(
            table,
            book_from((#[trigger] books[i]).volume_id@),
            0,
        ) is Some
}

/// Whether the table of quotes holds a quote for every bookmark of an
/// export.
pub open spec fn items_known(table: Seq<Quote>, items: Seq<KoboQuote>) -> bool {
    forall|t: int|
        0 <= t < items.len() ==> first_from(
            table,
            quote_from((#[trigger] items[t]).bookmark_id@),
            0,
        ) is Some
}

/// Whether no bookmark of `items` is a note.
pub open spec fn no_notes_among(items: Seq<KoboQuote>) -> bool {
    forall|t: int| 0 <= t < items.len() ==> !kobo_is_note(#[trigger] items[t])
}

/// Looking at the chapters of a book adds chapters and nothing else.
pub proof fn lemma_kobo_chapters_grow(
    run: Run,
    chapters: Seq<KoboChapter>,
    volume: Seq<char>,
    book_id: String,
    now: Timestamp,
    ids: Seq<String>,
)
    ensures
        kobo_chapters(run, chapters, volume, book_id, now, ids) matches Ok(next) ==> {
            &&& next.store.extends(run.store)
            &&& next.store.books == run.store.books
            &&& next.store.quotes == run.store.quotes
            &&& next.store.notes == run.store.notes
        },
    decreases chapters.len(),
{
    if chapters.len() > 0 {
        match kobo_chapter_step(run, chapters[0], volume, book_id, now, ids) {
            Ok(mid) => {
                lemma_kobo_chapters_grow(mid, chapters.drop_first(), volume, book_id, now, ids);
            },
            Err(_) => {},
        }
    }
}

/// After a book of the export was looked at, the store knows it; quotes and
/// notes are as they were.
pub proof fn lemma_kobo_book_step_grows(
    run: Run,
    chapters: Seq<KoboChapter>,
    book: KoboBook,
    now: Timestamp,
    ids: Seq<String>,
)
    ensures
        kobo_book_step(run, chapters, book, now, ids) matches Ok(next) ==> {
            &&& next.store.extends(run.store)
            &&& next.store.quotes == run.store.quotes
            &&& next.store.notes == run.store.notes
            &&& first_from(next.store.books, book_from(book.volume_id@), 0) is Some
        },
{
    if first_from(run.store.books, book_from(book.volume_id@), 0) is None {
        match book_author_resolved(run, book.author, now, ids) {
            Err(_) => {},
            Ok((known, author_id)) => {
                let row = new_book(
                    ids[known.used as int],
                    book.title,
                    author_id,
                    Some(book.volume_id),
                    now,
                );
                if known.used < ids.len() && known.store.admits_book(row) {
                    let booked = Run {
                        store: known.store.with_book(row),
                        new_books: known.new_books + 1,
                        used: known.used + 1,
                        ..known
                    };
                    lemma_missing_then_pushed(known.store.books, row, book_from(book.volume_id@));
                    lemma_kobo_chapters_grow(
                        booked,
                        chapters,
                        book.volume_id@,
                        ids[known.used as int],
                        now,
                        ids,
                    );
                }
            },
        }
    }
}

/// After the books of the export were looked at, the store knows each of
/// them; quotes and notes are as they were.
pub proof fn lemma_kobo_books_grow(
    run: Run,
    chapters: Seq<KoboChapter>,
    books: Seq<KoboBook>,
    now: Timestamp,
    ids: Seq<String>,
)
    ensures
        kobo_books(run, chapters, books, now, ids) matches Ok(next) ==> {
            &&& next.store.extends(run.store)
            &&& next.store.quotes == run.store.quotes
            &&& next.store.notes == run.store.notes
            &&& books_known(next.store.books, books)
        },
    decreases books.len(),
{
    if books.len() > 0 {
        lemma_kobo_book_step_grows(run, chapters, books[0], now, ids);
        match kobo_book_step(run, chapters, books[0], now, ids) {
            Err(_) => {},
            Ok(mid) => {
                let rest = books.drop_first();
                lemma_kobo_books_grow(mid, chapters, rest, now, ids);
                match kobo_books(mid, chapters, rest, now, ids) {
                    Err(_) => {},
                    Ok(next) => {
                        lemma_found_stays(
                            mid.store.books,
                            next.store.books,
                            book_from(books[0].volume_id@),
                        );
                        assert forall|i: int| 0 <= i < books.len() implies first_from(
                            next.store.books,
                            book_from((#[trigger] books[i]).volume_id@),
                            0,
                        ) is Some by {
                            if i > 0 {
                                assert(books[i] == rest[i - 1]);
                            }
                        }
                    },
                }
            },
        }
    }
}

/// After a bookmark was looked at, the store knows it; authors, books and
/// chapters are as they were.
pub proof fn lemma_kobo_item_step_grows(run: Run, item: KoboQuote, now: Timestamp, ids: Seq<String>)
    ensures
        kobo_item_step(run, item, now, ids) matches Ok(next) ==> {
            &&& next.store.extends(run.store)
            &&& next.store.authors == run.store.authors
            &&& next.store.books == run.store.books
            &&& next.store.chapters == run.store.chapters
            &&& first_from(next.store.quotes, quote_from(item.bookmark_id@), 0) is Some
            &&& !kobo_is_note(item) ==> next.store.notes == run.store.notes
        },
{
    if first_from(run.store.quotes, quote_from(item.bookmark_id@), 0) is None {
        match kobo_dates(item) {
            Err(_) => {},
            Ok(dates) => {
                let quote = kobo_quote_at(run, item, dates, now, ids);
                if run.used < ids.len() && run.store.admits_quote(quote) {
                    lemma_missing_then_pushed(
                        run.store.quotes,
                        quote,
                        quote_from(item.bookmark_id@),
                    );
                }
            },
        }
    }
}

/// After the bookmarks of the export were looked at, the store knows each of
/// them; authors, books and chapters are as they were.
pub proof fn lemma_kobo_items_grow(
    run: Run,
    items: Seq<KoboQuote>,
    now: Timestamp,
    ids: Seq<String>,
)
    ensures
        kobo_items(run, items, now, ids) matches Ok(next) ==> {
            &&& next.store.extends(run.store)
            &&& next.store.authors == run.store.authors
            &&& next.store.books == run.store.books
            &&& next.store.chapters == run.store.chapters
            &&& items_known(next.store.quotes, items)
            &&& no_notes_among(items) ==> next.store.notes == run.store.notes
        },
    decreases items.len(),
{
    if items.len() > 0 {
        lemma_kobo_item_step_grows(run, items[0], now, ids);
        match kobo_item_step(run, items[0], now, ids) {
            Err(_) => {},
            Ok(mid) => {
                let rest = items.drop_first();
                lemma_kobo_items_grow(mid, rest, now, ids);
                match kobo_items(mid, rest, now, ids) {
                    Err(_) => {},
                    Ok(next) => {
                        lemma_found_stays(
                            mid.store.quotes,
                            next.store.quotes,
                            quote_from(items[0].bookmark_id@),
                        );
                        assert forall|t: int| 0 <= t < items.len() implies first_from(
                            next.store.quotes,
                            quote_from((#[trigger] items[t]).bookmark_id@),
                            0,
                        ) is Some by {
                            if t > 0 {
                                assert(items[t] == rest[t - 1]);
                            }
                        }
                    },
                }
            },
        }
    }
}

/// Books that the store knows are passed over.
pub proof fn lemma_known_books_pass(
    run: Run,
    chapters: Seq<KoboChapter>,
    books: Seq<KoboBook>,
    now: Timestamp,
    ids: Seq<String>,
)
    requires
        books_known(run.store.books, books),
    ensures
        kobo_books(run, chapters, books, now, ids) == Ok::<Run, crate::error::Failure>(run),
    decreases books.len(),
{
    if books.len() > 0 {
        let rest = books.drop_first();
        lemma_known_books_pass(run, chapters, rest, now, ids);
    }
}

/// Bookmarks that the store knows are passed over.
pub proof fn lemma_known_items_pass(
    run: Run,
    items: Seq<KoboQuote>,
    now: Timestamp,
    ids: Seq<String>,
)
    requires
        items_known(run.store.quotes, items),
    ensures
        kobo_items(run, items, now, ids) == Ok::<Run, crate::error::Failure>(run),
    decreases items.len(),
{
    if items.len() > 0 {
        let rest = items.drop_first();
        lemma_known_items_pass(run, rest, now, ids);
    }
}

/// A run that succeeds only adds rows: every table of the store afterwards
/// begins with the table as it was.
pub proof fn law_kobo_import_only_adds(
    store: StoreView,
    export: KoboExport,
    now: Timestamp,
    ids: Seq<String>,
)
    ensures
        kobo_outcome(store, export, now, ids).1.extends(store),
        kobo_outcome(store, export, now, ids).0 is Err ==> kobo_outcome(
            store,
            export,
            now,
            ids,
        ).1 == store,
{
    lemma_kobo_books_grow(fresh_run(store), export.chapters@, export.books@, now, ids);
    match kobo_books(fresh_run(store), export.chapters@, export.books@, now, ids) {
        Err(_) => {},
        Ok(booked) => {
            lemma_kobo_items_grow(booked, export.items@, now, ids);
        },
    }
}

/// Importing the same export a second time adds nothing: after a run that
/// succeeded, a run over the same export, at whatever time and with whatever
/// identifiers on offer, succeeds, counts no new book and no new quote, and
/// leaves the store as the first run left it.
pub proof fn law_kobo_import_idempotent(
    store: StoreView,
    export: KoboExport,
    first_now: Timestamp,
    first_ids: Seq<String>,
    second_now: Timestamp,
    second_ids: Seq<String>,
)
    requires
        kobo_outcome(store, export, first_now, first_ids).0 is Ok,
    ensures
        kobo_outcome(
            kobo_outcome(store, export, first_now, first_ids).1,
            export,
            second_now,
            second_ids,
        ) == (
            Ok::<ImportSummary, crate::error::Failure>(
                ImportSummary { new_books: 0, new_quotes: 0 },
            ),
            kobo_outcome(store, export, first_now, first_ids).1,
        ),
{
    let booked = kobo_books(
        fresh_run(store),
        export.chapters@,
        export.books@,
        first_now,
        first_ids,
    )->Ok_0;
    let done = kobo_items(booked, export.items@, first_now, first_ids)->Ok_0;
    lemma_kobo_books_grow(fresh_run(store), export.chapters@, export.books@, first_now, first_ids);
    lemma_kobo_items_grow(booked, export.items@, first_now, first_ids);
    let again = fresh_run(done.store);
    lemma_known_books_pass(again, export.chapters@, export.books@, second_now, second_ids);
    lemma_known_items_pass(again, export.items@, second_now, second_ids);
}

/// A bookmark that the store does not know yet and that is a note leaves
/// one new quote and one new note, and the note names that quote. A
/// bookmark that is no note leaves the notes as they were.
pub proof fn law_kobo_note_linkage(run: Run, item: KoboQuote, now: Timestamp, ids: Seq<String>)
    requires
        kobo_item_step(run, item, now, ids) is Ok,
    ensures
        ({
            let next = kobo_item_step(run, item, now, ids)->Ok_0;
            let known = first_from(run.store.quotes, quote_from(item.bookmark_id@), 0) is Some;
            &&& !kobo_is_note(item) ==> next.store.notes == run.store.notes
            &&& known ==> next == run
            &&& !known ==> {
                &&& next.store.quotes.len() == run.store.quotes.len() + 1
                &&& next.store.quotes.last().original_id == Some(item.bookmark_id)
                &&& next.store.quotes.last().content == item.text
            }
            &&& !known && kobo_is_note(item) ==> {
                &&& next.store.notes.len() == run.store.notes.len() + 1
                &&& next.store.notes.last().quote_id == Some(next.store.quotes.last().id)
                &&& next.store.notes.last().content == item.annotation
            }
        }),
{
}

/// A bookmark marked as a highlight is no note.
pub proof fn law_kobo_highlight_is_no_note(item: KoboQuote)
    requires
        item.item_type@ == "highlight"@,
    ensures
        !kobo_is_note(item),
{
    reveal_strlit("highlight");
    reveal_strlit("note");
    assert(KOBO_NOTE@.len() == 4);
}

/// An export without notes leaves the notes of the store as they were.
pub proof fn law_kobo_highlights_leave_notes(
    store: StoreView,
    export: KoboExport,
    now: Timestamp,
    ids: Seq<String>,
)
    requires
        no_notes_among(export.items@),
    ensures
        kobo_outcome(store, export, now, ids).1.notes == store.notes,
{
    lemma_kobo_books_grow(fresh_run(store), export.chapters@, export.books@, now, ids);
    match kobo_books(fresh_run(store), export.chapters@, export.books@, now, ids) {
        Err(_) => {},
        Ok(booked) => {
            lemma_kobo_items_grow(booked, export.items@, now, ids);
        },
    }
}

} // verus!
