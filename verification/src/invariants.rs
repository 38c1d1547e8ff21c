//! What every import keeps: identifiers stay distinct, and a run counts
//! exactly the rows that it added.

use crate::clippings::Clipping;
use crate::datetime::Timestamp;
use crate::ibooks::{
    annotation_in, ibooks_book_step, ibooks_books, ibooks_has_note, ibooks_note_row,
    ibooks_quote_row, ibooks_quote_step, ibooks_quotes, ibooks_run, IBooksBookAuthor, IBooksExport,
    IBooksQuote,
};
use crate::kindle::{
    kindle_book_resolved, kindle_entries, kindle_note_row, kindle_quote_row, kindle_step,
};
use crate::kobo::{
    kobo_book_step, kobo_books, kobo_chapter_row, kobo_chapter_step, kobo_chapters, kobo_dates,
    kobo_is_note, kobo_item_step, kobo_items, kobo_note_row, kobo_quote_at, kobo_run, KoboBook,
    KoboChapter, KoboExport, KoboQuote,
};
use crate::reconcile::{author_resolved, book_author_resolved, fresh_run, owner_of, Run};
use crate::store::{
    book_from, chapter_from, first_from, lemma_with_author_sound, lemma_with_book_sound,
    lemma_with_chapter_sound, lemma_with_note_sound, lemma_with_quote_sound, new_author, new_book,
    quote_from, StoreView,
};
use vstd::prelude::*;

verus! {

impl StoreView {
    /// How many rows the five tables hold together.
    pub open spec fn rows(self) -> nat {
        self.authors.len() + self.books.len() + self.chapters.len() + self.quotes.len()
            + self.notes.len()
    }

    /// Whether identifiers are distinct: those of the rows of each table,
    /// and those that sources gave to books, to chapters and to quotes.
    pub open spec fn sound(self) -> bool {
        self.keys_distinct() && self.origins_distinct()
    }
}

/// Whether, from `before` to `after`, a run counted the books and the quotes
/// that it added, handed out one identifier for each row that it added, and
/// kept identifiers distinct if they were.
pub open spec fn kept(before: Run, after: Run) -> bool {
    &&& after.new_books - before.new_books == after.store.books.len() - before.store.books.len()
    &&& after.new_quotes - before.new_quotes == after.store.quotes.len()
        - before.store.quotes.len()
    &&& after.used - before.used == after.store.rows() - before.store.rows()
    &&& before.store.sound() ==> after.store.sound()
}

/// Resolving an author keeps the books and the quotes, the counts and the
/// distinct identifiers.
pub proof fn lemma_author_resolved_kept(run: Run, name: String, now: Timestamp, ids: Seq<String>)
    ensures
        author_resolved(run, name, now, ids) matches Ok(done) ==> kept(run, done.0),
{
    if run.used < ids.len() && run.store.sound() {
        lemma_with_author_sound(run.store, new_author(ids[run.used as int], name, now));
    }
}

/// Resolving the author of a book, who may be unknown, keeps the same.
pub proof fn lemma_book_author_resolved_kept(
    run: Run,
    author: Option<String>,
    now: Timestamp,
    ids: Seq<String>,
)
    ensures
        book_author_resolved(run, author, now, ids) matches Ok(done) ==> kept(run, done.0),
{
    if author is Some {
        lemma_author_resolved_kept(run, author->0, now, ids);
    }
}

/// Looking at a chapter of a Kobo export keeps the counts and the distinct
/// identifiers.
pub proof fn lemma_kobo_chapter_step_kept(
    run: Run,
    chapter: KoboChapter,
    volume: Seq<char>,
    book_id: String,
    now: Timestamp,
    ids: Seq<String>,
)
    ensures
        kobo_chapter_step(run, chapter, volume, book_id, now, ids) matches Ok(next) ==> kept(
            run,
            next,
        ),
{
    if run.used < ids.len() && run.store.sound() && first_from(
        run.store.chapters,
        chapter_from(chapter.content_id@),
        0,
    ) is None {
        lemma_with_chapter_sound(
            run.store,
            kobo_chapter_row(ids[run.used as int], book_id, chapter, now),
        );
    }
}

/// Looking at the chapters of a book keeps the counts and the distinct
/// identifiers.
pub proof fn lemma_kobo_chapters_kept(
    run: Run,
    chapters: Seq<KoboChapter>,
    volume: Seq<char>,
    book_id: String,
    now: Timestamp,
    ids: Seq<String>,
)
    ensures
        kobo_chapters(run, chapters, volume, book_id, now, ids) matches Ok(next) ==> kept(
            run,
            next,
        ),
    decreases chapters.len(),
{
    if chapters.len() > 0 {
        lemma_kobo_chapter_step_kept(run, chapters[0], volume, book_id, now, ids);
        match kobo_chapter_step(run, chapters[0], volume, book_id, now, ids) {
            Ok(mid) => {
                lemma_kobo_chapters_kept(mid, chapters.drop_first(), volume, book_id, now, ids);
            },
            Err(_) => {},
        }
    }
}

/// Looking at a book of a Kobo export keeps the counts and the distinct
/// identifiers.
pub proof fn lemma_kobo_book_step_kept(
    run: Run,
    chapters: Seq<KoboChapter>,
    book: KoboBook,
    now: Timestamp,
    ids: Seq<String>,
)
    ensures
        kobo_book_step(run, chapters, book, now, ids) matches Ok(next) ==> kept(run, next),
{
    if first_from(run.store.books, book_from(book.volume_id@), 0) is None {
        lemma_book_author_resolved_kept(run, book.author, now, ids);
        match book_author_resolved(run, book.author, now, ids) {
            Err(_) => {},
            Ok((known, author_id)) => {
                let row = new_book(
                    ids[known.used as int],
                    book.title,
                    author_id,
                    Some(book.volume_id),
                    now,
                );
                if known.used < ids.len() && known.store.admits_book(row) {
                    if known.store.sound() {
                        lemma_with_book_sound(known.store, row);
                    }
                    lemma_kobo_chapters_kept(
                        Run {
                            store: known.store.with_book(row),
                            new_books: known.new_books + 1,
                            used: known.used + 1,
                            ..known
                        },
                        chapters,
                        book.volume_id@,
                        ids[known.used as int],
                        now,
                        ids,
                    );
                }
            },
        }
    }
}

/// Looking at the books of a Kobo export keeps the counts and the distinct
/// identifiers.
pub proof fn lemma_kobo_books_kept(
    run: Run,
    chapters: Seq<KoboChapter>,
    books: Seq<KoboBook>,
    now: Timestamp,
    ids: Seq<String>,
)
    ensures
        kobo_books(run, chapters, books, now, ids) matches Ok(next) ==> kept(run, next),
    decreases books.len(),
{
    if books.len() > 0 {
        lemma_kobo_book_step_kept(run, chapters, books[0], now, ids);
        match kobo_book_step(run, chapters, books[0], now, ids) {
            Ok(mid) => {
                lemma_kobo_books_kept(mid, chapters, books.drop_first(), now, ids);
            },
            Err(_) => {},
        }
    }
}

/// Looking at a bookmark keeps the counts and the distinct identifiers.
pub proof fn lemma_kobo_item_step_kept(run: Run, item: KoboQuote, now: Timestamp, ids: Seq<String>)
    ensures
        kobo_item_step(run, item, now, ids) matches Ok(next) ==> kept(run, next),
{
    if first_from(run.store.quotes, quote_from(item.bookmark_id@), 0) is None {
        match kobo_dates(item) {
            Err(_) => {},
            Ok(dates) => {
                let quote = kobo_quote_at(run, item, dates, now, ids);
                if run.used < ids.len() && run.store.admits_quote(quote) && run.store.sound() {
                    lemma_with_quote_sound(run.store, quote);
                    if kobo_is_note(item) && run.used + 1 < ids.len() {
                        lemma_with_note_sound(
                            run.store.with_quote(quote),
                            kobo_note_row(ids[run.used + 1 as int], item, quote),
                        );
                    }
                }
            },
        }
    }
}

/// Looking at the bookmarks keeps the counts and the distinct identifiers.
pub proof fn lemma_kobo_items_kept(
    run: Run,
    items: Seq<KoboQuote>,
    now: Timestamp,
    ids: Seq<String>,
)
    ensures
        kobo_items(run, items, now, ids) matches Ok(next) ==> kept(run, next),
    decreases items.len(),
{
    if items.len() > 0 {
        lemma_kobo_item_step_kept(run, items[0], now, ids);
        match kobo_item_step(run, items[0], now, ids) {
            Ok(mid) => {
                lemma_kobo_items_kept(mid, items.drop_first(), now, ids);
            },
            Err(_) => {},
        }
    }
}

/// An import of a Kobo export reports the books and the quotes that it
/// added and no others, hands out one identifier for each row that it
/// added, and leaves identifiers distinct where they were.
pub proof fn law_kobo_import_counts_what_it_adds(
    store: StoreView,
    export: KoboExport,
    now: Timestamp,
    ids: Seq<String>,
)
    ensures
        kobo_run(store, export, now, ids) matches Ok(run) ==> {
            &&& run.new_books == run.store.books.len() - store.books.len()
            &&& run.new_quotes == run.store.quotes.len() - store.quotes.len()
            &&& run.used == run.store.rows() - store.rows()
            &&& store.sound() ==> run.store.sound()
        },
{
    lemma_kobo_books_kept(fresh_run(store), export.chapters@, export.books@, now, ids);
    match kobo_books(fresh_run(store), export.chapters@, export.books@, now, ids) {
        Ok(booked) => {
            lemma_kobo_items_kept(booked, export.items@, now, ids);
        },
        Err(_) => {},
    }
}

/// Looking at a book of Apple Books keeps the counts and the distinct
/// identifiers.
pub proof fn lemma_ibooks_book_step_kept(
    run: Run,
    quotes: Seq<IBooksQuote>,
    book: IBooksBookAuthor,
    now: Timestamp,
    ids: Seq<String>,
)
    ensures
        ibooks_book_step(run, quotes, book, now, ids) matches Ok(next) ==> kept(run, next),
{
    if first_from(quotes, annotation_in(book.id@), 0) is Some && first_from(
        run.store.books,
        book_from(book.id@),
        0,
    ) is None {
        lemma_book_author_resolved_kept(run, book.author, now, ids);
        match book_author_resolved(run, book.author, now, ids) {
            Err(_) => {},
            Ok((known, author_id)) => {
                let row = new_book(
                    ids[known.used as int],
                    book.title,
                    author_id,
                    Some(book.id),
                    now,
                );
                if known.used < ids.len() && known.store.sound() {
                    lemma_with_book_sound(known.store, row);
                }
            },
        }
    }
}

/// Looking at the books of Apple Books keeps the counts and the distinct
/// identifiers.
pub proof fn lemma_ibooks_books_kept(
    run: Run,
    quotes: Seq<IBooksQuote>,
    books: Seq<IBooksBookAuthor>,
    now: Timestamp,
    ids: Seq<String>,
)
    ensures
        ibooks_books(run, quotes, books, now, ids) matches Ok(next) ==> kept(run, next),
    decreases books.len(),
{
    if books.len() > 0 {
        lemma_ibooks_book_step_kept(run, quotes, books[0], now, ids);
        match ibooks_book_step(run, quotes, books[0], now, ids) {
            Ok(mid) => {
                lemma_ibooks_books_kept(mid, quotes, books.drop_first(), now, ids);
            },
            Err(_) => {},
        }
    }
}

/// Looking at an annotation keeps the counts and the distinct identifiers.
pub proof fn lemma_ibooks_quote_step_kept(
    run: Run,
    quote: IBooksQuote,
    now: Timestamp,
    ids: Seq<String>,
)
    ensures
        ibooks_quote_step(run, quote, now, ids) matches Ok(next) ==> kept(run, next),
{
    if first_from(run.store.quotes, quote_from(quote.id@), 0) is None {
        match owner_of(run.store.books, quote.book_id@) {
            None => {},
            Some(owner) => {
                let row = ibooks_quote_row(ids[run.used as int], quote, owner, now);
                if run.used < ids.len() && run.store.admits_quote(row) && run.store.sound() {
                    lemma_with_quote_sound(run.store, row);
                    if ibooks_has_note(quote) && run.used + 1 < ids.len() {
                        lemma_with_note_sound(
                            run.store.with_quote(row),
                            ibooks_note_row(ids[run.used + 1 as int], quote, row),
                        );
                    }
                }
            },
        }
    }
}

/// Looking at the annotations keeps the counts and the distinct
/// identifiers.
pub proof fn lemma_ibooks_quotes_kept(
    run: Run,
    quotes: Seq<IBooksQuote>,
    now: Timestamp,
    ids: Seq<String>,
)
    ensures
        ibooks_quotes(run, quotes, now, ids) matches Ok(next) ==> kept(run, next),
    decreases quotes.len(),
{
    if quotes.len() > 0 {
        lemma_ibooks_quote_step_kept(run, quotes[0], now, ids);
        match ibooks_quote_step(run, quotes[0], now, ids) {
            Ok(mid) => {
                lemma_ibooks_quotes_kept(mid, quotes.drop_first(), now, ids);
            },
            Err(_) => {},
        }
    }
}

/// An import from Apple Books reports the books and the quotes that it
/// added and no others, hands out one identifier for each row that it
/// added, and leaves identifiers distinct where they were.
pub proof fn law_ibooks_import_counts_what_it_adds(
    store: StoreView,
    export: IBooksExport,
    now: Timestamp,
    ids: Seq<String>,
)
    ensures
        ibooks_run(store, export, now, ids) matches Ok(run) ==> {
            &&& run.new_books == run.store.books.len() - store.books.len()
            &&& run.new_quotes == run.store.quotes.len() - store.quotes.len()
            &&& run.used == run.store.rows() - store.rows()
            &&& store.sound() ==> run.store.sound()
        },
{
    lemma_ibooks_books_kept(fresh_run(store), export.quotes@, export.books@, now, ids);
    match ibooks_books(fresh_run(store), export.quotes@, export.books@, now, ids) {
        Ok(booked) => {
            lemma_ibooks_quotes_kept(booked, export.quotes@, now, ids);
        },
        Err(_) => {},
    }
}

/// Looking at an entry of a clippings file keeps the counts and the
/// distinct identifiers.
pub proof fn lemma_kindle_step_kept(run: Run, entry: Clipping, now: Timestamp, ids: Seq<String>)
    ensures
        kindle_step(run, entry, now, ids) matches Ok(next) ==> kept(run, next),
{
    match kindle_book_resolved(run, entry.title, now, ids) {
        Err(_) => {},
        Ok((booked, book_id)) => {
            if run.used < ids.len() && run.store.sound() && owner_of(
                run.store.books,
                entry.title@,
            ) is None {
                lemma_with_book_sound(
                    run.store,
                    new_book(ids[run.used as int], entry.title, None, Some(entry.title), now),
                );
            }
            lemma_book_author_resolved_kept(booked, entry.author, now, ids);
            match book_author_resolved(booked, entry.author, now, ids) {
                Err(_) => {},
                Ok((known, author_id)) => {
                    if known.used < ids.len() && known.store.sound() && entry.content is Some {
                        lemma_with_quote_sound(
                            known.store,
                            kindle_quote_row(
                                ids[known.used as int],
                                entry,
                                book_id,
                                author_id,
                                now,
                            ),
                        );
                        lemma_with_note_sound(
                            known.store,
                            kindle_note_row(ids[known.used as int], entry, book_id, author_id),
                        );
                    }
                },
            }
        },
    }
}

/// Looking at the entries of a clippings file keeps the counts and the
/// distinct identifiers.
pub proof fn lemma_kindle_entries_kept(
    run: Run,
    entries: Seq<Clipping>,
    now: Timestamp,
    ids: Seq<String>,
)
    ensures
        kindle_entries(run, entries, now, ids) matches Ok(next) ==> kept(run, next),
    decreases entries.len(),
{
    if entries.len() > 0 {
        lemma_kindle_step_kept(run, entries[0], now, ids);
        match kindle_step(run, entries[0], now, ids) {
            Ok(mid) => {
                lemma_kindle_entries_kept(mid, entries.drop_first(), now, ids);
            },
            Err(_) => {},
        }
    }
}

/// An import of the entries of a clippings file reports the books and the
/// quotes that it added and no others, hands out one identifier for each
/// row that it added, and leaves identifiers distinct where they were.
pub proof fn law_kindle_import_counts_what_it_adds(
    store: StoreView,
    entries: Seq<Clipping>,
    now: Timestamp,
    ids: Seq<String>,
)
    ensures
        kindle_entries(fresh_run(store), entries, now, ids) matches Ok(run) ==> {
            &&& run.new_books == run.store.books.len() - store.books.len()
            &&& run.new_quotes == run.store.quotes.len() - store.quotes.len()
            &&& run.used == run.store.rows() - store.rows()
            &&& store.sound() ==> run.store.sound()
        },
{
    lemma_kindle_entries_kept(fresh_run(store), entries, now, ids);
}

} // verus!
