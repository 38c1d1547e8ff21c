//! When an import is owed success: with identifiers that are new to the
//! store and differ from each other, one for each row that the import can
//! add, a run fails only where a date that it needs cannot be read.

use crate::clippings::{Clipping, EntryKind};
use crate::datetime::Timestamp;
use crate::ibooks::{
    annotation_in, ibooks_book_step, ibooks_books, ibooks_has_note, ibooks_note_row,
    ibooks_quote_row, ibooks_quote_step, ibooks_quotes, ibooks_rows_at_most, ibooks_run,
    IBooksBookAuthor, IBooksExport, IBooksQuote,
};
use crate::kindle::{
    kindle_book_resolved, kindle_entries, kindle_note_row, kindle_quote_row, kindle_rows_at_most,
    kindle_step,
};
use crate::kobo::{
    kobo_book_step, kobo_books, kobo_chapter_row, kobo_chapter_step, kobo_chapters, kobo_dates,
    kobo_is_note, kobo_item_step, kobo_items, kobo_note_row, kobo_quote_at, kobo_rows_at_most,
    kobo_run, KoboBook, KoboChapter, KoboExport, KoboQuote,
};
use crate::models::{Author, Book, Chapter, Note, Quote};
use crate::reconcile::{author_resolved, book_author_resolved, fresh_run, owner_of, Run};
use crate::store::{
    author_named, author_with_id, book_from, book_with_id, chapter_from, chapter_with_id,
    first_from, lemma_found_stays, lemma_missing_then_pushed, new_author, new_book, note_with_id,
    quote_from, quote_saying, quote_with_id, StoreView,
};
use vstd::prelude::*;

verus! {

/// Whether no row of any table has the identifier `id`.
pub open spec fn id_free(store: StoreView, id: Seq<char>) -> bool {
    &&& first_from(store.authors, author_with_id(id), 0) is None
    &&& first_from(store.books, book_with_id(id), 0) is None
    &&& first_from(store.chapters, chapter_with_id(id), 0) is None
    &&& first_from(store.quotes, quote_with_id(id), 0) is None
    &&& first_from(store.notes, note_with_id(id), 0) is None
}

/// Whether the identifiers from `from` on are new to the store and differ
/// from each other.
pub open spec fn ids_fresh(ids: Seq<String>, from: nat, store: StoreView) -> bool {
    &&& forall|k: int| from <= k < ids.len() ==> id_free(store, (#[trigger] ids[k])@)
    &&& forall|k: int, l: int|
        #![trigger ids[k], ids[l]]
        from <= k < l < ids.len() ==> ids[k]@ != ids[l]@
}

/// How many of the chapters of an export the table of chapters does not
/// hold yet.
pub open spec fn unknown_chapters(chapters: Seq<KoboChapter>, table: Seq<Chapter>) -> nat
    decreases chapters.len(),
{
    if chapters.len() == 0 {
        0
    } else {
        unknown_chapters(chapters.drop_last(), table) + if first_from(
            table,
            chapter_from(chapters.last().content_id@),
            0,
        ) is None {
            1nat
        } else {
            0nat
        }
    }
}

/// No more chapters are unknown than there are chapters.
pub proof fn lemma_unknown_chapters_bounded(chapters: Seq<KoboChapter>, table: Seq<Chapter>)
    ensures
        unknown_chapters(chapters, table) <= chapters.len(),
    decreases chapters.len(),
{
    if chapters.len() > 0 {
        lemma_unknown_chapters_bounded(chapters.drop_last(), table);
    }
}

/// A table that grew knows no fewer chapters; and where it grew by a row
/// for a chapter at `at` that it did not hold, it knows one more at least.
pub proof fn lemma_unknown_chapters_shrink(
    chapters: Seq<KoboChapter>,
    table: Seq<Chapter>,
    row: Chapter,
    at: int,
)
    requires
        row.original_id is Some,
    ensures
        unknown_chapters(chapters, table.push(row)) <= unknown_chapters(chapters, table),
        0 <= at < chapters.len() && first_from(
            table,
            chapter_from(chapters[at].content_id@),
            0,
        ) is None && row.original_id->0@ == chapters[at].content_id@ ==> unknown_chapters(
            chapters,
            table.push(row),
        ) < unknown_chapters(chapters, table),
    decreases chapters.len(),
{
    if chapters.len() > 0 {
        let wanted = chapter_from(chapters.last().content_id@);
        if first_from(table, wanted, 0) is Some {
            lemma_found_stays(table, table.push(row), wanted);
        } else {
            lemma_missing_then_pushed(table, row, wanted);
        }
        if at == chapters.len() - 1 {
            lemma_unknown_chapters_shrink(chapters.drop_last(), table, row, -1);
        } else {
            lemma_unknown_chapters_shrink(chapters.drop_last(), table, row, at);
        }
    }
}

/// After an author was added under the next identifier, the identifiers
/// behind it are new to the store still.
pub proof fn lemma_fresh_after_author(ids: Seq<String>, from: nat, store: StoreView, row: Author)
    requires
        ids_fresh(ids, from, store),
        from < ids.len(),
        row.id == ids[from as int],
    ensures
        store.admits_author(row),
        ids_fresh(ids, (from + 1) as nat, store.with_author(row)),
{
    assert forall|k: int| from + 1 <= k < ids.len() implies id_free(
        store.with_author(row),
        (#[trigger] ids[k])@,
    ) by {
        lemma_missing_then_pushed(store.authors, row, author_with_id(ids[k]@));
    }
}

/// After a book was added under the next identifier, the identifiers behind
/// it are new to the store still.
pub proof fn lemma_fresh_after_book(ids: Seq<String>, from: nat, store: StoreView, row: Book)
    requires
        ids_fresh(ids, from, store),
        from < ids.len(),
        row.id == ids[from as int],
    ensures
        store.admits_book(row),
        ids_fresh(ids, (from + 1) as nat, store.with_book(row)),
{
    assert forall|k: int| from + 1 <= k < ids.len() implies id_free(
        store.with_book(row),
        (#[trigger] ids[k])@,
    ) by {
        lemma_missing_then_pushed(store.books, row, book_with_id(ids[k]@));
    }
}

/// After a chapter was added under the next identifier, the identifiers
/// behind it are new to the store still.
pub proof fn lemma_fresh_after_chapter(ids: Seq<String>, from: nat, store: StoreView, row: Chapter)
    requires
        ids_fresh(ids, from, store),
        from < ids.len(),
        row.id == ids[from as int],
    ensures
        store.admits_chapter(row),
        ids_fresh(ids, (from + 1) as nat, store.with_chapter(row)),
{
    assert forall|k: int| from + 1 <= k < ids.len() implies id_free(
        store.with_chapter(row),
        (#[trigger] ids[k])@,
    ) by {
        lemma_missing_then_pushed(store.chapters, row, chapter_with_id(ids[k]@));
    }
}

/// After a quote was added under the next identifier, the identifiers
/// behind it are new to the store still.
pub proof fn lemma_fresh_after_quote(ids: Seq<String>, from: nat, store: StoreView, row: Quote)
    requires
        ids_fresh(ids, from, store),
        from < ids.len(),
        row.id == ids[from as int],
    ensures
        store.admits_quote(row),
        ids_fresh(ids, (from + 1) as nat, store.with_quote(row)),
{
    assert forall|k: int| from + 1 <= k < ids.len() implies id_free(
        store.with_quote(row),
        (#[trigger] ids[k])@,
    ) by {
        lemma_missing_then_pushed(store.quotes, row, quote_with_id(ids[k]@));
    }
}

/// After a note was added under the next identifier, the identifiers behind
/// it are new to the store still.
pub proof fn lemma_fresh_after_note(ids: Seq<String>, from: nat, store: StoreView, row: Note)
    requires
        ids_fresh(ids, from, store),
        from < ids.len(),
        row.id == ids[from as int],
    ensures
        store.admits_note(row),
        ids_fresh(ids, (from + 1) as nat, store.with_note(row)),
{
    assert forall|k: int| from + 1 <= k < ids.len() implies id_free(
        store.with_note(row),
        (#[trigger] ids[k])@,
    ) by {
        lemma_missing_then_pushed(store.notes, row, note_with_id(ids[k]@));
    }
}

/// With a fresh identifier left, an author is resolved.
pub proof fn lemma_author_resolves(run: Run, name: String, now: Timestamp, ids: Seq<String>)
    requires
        ids_fresh(ids, run.used, run.store),
        run.used < ids.len(),
    ensures
        author_resolved(run, name, now, ids) matches Ok(done) && {
            &&& ids_fresh(ids, done.0.used, done.0.store)
            &&& run.used <= done.0.used <= run.used + 1
            &&& done.0.store.books == run.store.books
            &&& done.0.store.chapters == run.store.chapters
            &&& done.0.store.quotes == run.store.quotes
        },
{
    if first_from(run.store.authors, author_named(name@), 0) is None {
        lemma_fresh_after_author(
            ids,
            run.used,
            run.store,
            new_author(ids[run.used as int], name, now),
        );
    }
}

/// With a fresh identifier left, the author of a book is resolved.
pub proof fn lemma_book_author_resolves(
    run: Run,
    author: Option<String>,
    now: Timestamp,
    ids: Seq<String>,
)
    requires
        ids_fresh(ids, run.used, run.store),
        run.used < ids.len(),
    ensures
        book_author_resolved(run, author, now, ids) matches Ok(done) && {
            &&& ids_fresh(ids, done.0.used, done.0.store)
            &&& run.used <= done.0.used <= run.used + 1
            &&& done.0.store.books == run.store.books
            &&& done.0.store.chapters == run.store.chapters
            &&& done.0.store.quotes == run.store.quotes
        },
{
    if author is Some {
        lemma_author_resolves(run, author->0, now, ids);
    }
}

/// With a fresh identifier for each chapter that the store does not hold,
/// the chapters of a book are added.
pub proof fn lemma_kobo_chapters_succeed(
    run: Run,
    all: Seq<KoboChapter>,
    done: int,
    volume: Seq<char>,
    book_id: String,
    now: Timestamp,
    ids: Seq<String>,
)
    requires
        0 <= done <= all.len(),
        ids_fresh(ids, run.used, run.store),
        run.used + unknown_chapters(all, run.store.chapters) <= ids.len(),
    ensures
        kobo_chapters(run, all.skip(done), volume, book_id, now, ids) matches Ok(next) && {
            &&& ids_fresh(ids, next.used, next.store)
            &&& next.used + unknown_chapters(all, next.store.chapters) <= run.used
                + unknown_chapters(all, run.store.chapters)
            &&& next.store.books == run.store.books
            &&& next.store.quotes == run.store.quotes
        },
    decreases all.len() - done,
{
    let rest = all.skip(done);
    if rest.len() > 0 {
        let chapter = rest[0];
        assert(rest.drop_first() =~= all.skip(done + 1));
        if chapter.book_id@ == volume && first_from(
            run.store.chapters,
            chapter_from(chapter.content_id@),
            0,
        ) is None {
            let row = kobo_chapter_row(ids[run.used as int], book_id, chapter, now);
            lemma_unknown_chapters_shrink(all, run.store.chapters, row, done);
            lemma_fresh_after_chapter(ids, run.used, run.store, row);
        }
        let mid = kobo_chapter_step(run, chapter, volume, book_id, now, ids)->Ok_0;
        lemma_kobo_chapters_succeed(mid, all, done + 1, volume, book_id, now, ids);
    }
}

/// With two fresh identifiers for the book and one for each chapter that
/// the store does not hold, a book of the export is added with its
/// chapters.
pub proof fn lemma_kobo_book_step_succeeds(
    run: Run,
    chapters: Seq<KoboChapter>,
    book: KoboBook,
    now: Timestamp,
    ids: Seq<String>,
)
    requires
        ids_fresh(ids, run.used, run.store),
        run.used + 2 + unknown_chapters(chapters, run.store.chapters) <= ids.len(),
    ensures
        kobo_book_step(run, chapters, book, now, ids) matches Ok(next) && {
            &&& ids_fresh(ids, next.used, next.store)
            &&& next.used + unknown_chapters(chapters, next.store.chapters) <= run.used + 2
                + unknown_chapters(chapters, run.store.chapters)
            &&& next.store.quotes == run.store.quotes
        },
{
    if first_from(run.store.books, book_from(book.volume_id@), 0) is None {
        lemma_book_author_resolves(run, book.author, now, ids);
        let resolved = book_author_resolved(run, book.author, now, ids)->Ok_0;
        let known = resolved.0;
        let row = new_book(
            ids[known.used as int],
            book.title,
            resolved.1,
            Some(book.volume_id),
            now,
        );
        lemma_fresh_after_book(ids, known.used, known.store, row);
        let booked = Run {
            store: known.store.with_book(row),
            new_books: known.new_books + 1,
            used: known.used + 1,
            ..known
        };
        assert(chapters.skip(0) =~= chapters);
        lemma_kobo_chapters_succeed(
            booked,
            chapters,
            0,
            book.volume_id@,
            ids[known.used as int],
            now,
            ids,
        );
    }
}

/// With fresh identifiers enough, the books of the export are added.
pub proof fn lemma_kobo_books_succeed(
    run: Run,
    chapters: Seq<KoboChapter>,
    books: Seq<KoboBook>,
    now: Timestamp,
    ids: Seq<String>,
)
    requires
        ids_fresh(ids, run.used, run.store),
        run.used + 2 * books.len() + unknown_chapters(chapters, run.store.chapters) <= ids.len(),
    ensures
        kobo_books(run, chapters, books, now, ids) matches Ok(next) && {
            &&& ids_fresh(ids, next.used, next.store)
            &&& next.used + unknown_chapters(chapters, next.store.chapters) <= run.used + 2
                * books.len() + unknown_chapters(chapters, run.store.chapters)
            &&& next.store.quotes == run.store.quotes
        },
    decreases books.len(),
{
    if books.len() > 0 {
        lemma_kobo_book_step_succeeds(run, chapters, books[0], now, ids);
        let mid = kobo_book_step(run, chapters, books[0], now, ids)->Ok_0;
        lemma_kobo_books_succeed(mid, chapters, books.drop_first(), now, ids);
    }
}

/// With two fresh identifiers and dates that can be read, a bookmark is
/// added.
pub proof fn lemma_kobo_item_step_succeeds(
    run: Run,
    item: KoboQuote,
    now: Timestamp,
    ids: Seq<String>,
)
    requires
        ids_fresh(ids, run.used, run.store),
        run.used + 2 <= ids.len(),
        kobo_dates(item) is Ok,
    ensures
        kobo_item_step(run, item, now, ids) matches Ok(next) && {
            &&& ids_fresh(ids, next.used, next.store)
            &&& next.used <= run.used + 2
        },
{
    if first_from(run.store.quotes, quote_from(item.bookmark_id@), 0) is None {
        let quote = kobo_quote_at(run, item, kobo_dates(item)->Ok_0, now, ids);
        lemma_fresh_after_quote(ids, run.used, run.store, quote);
        if kobo_is_note(item) {
            lemma_fresh_after_note(
                ids,
                run.used + 1,
                run.store.with_quote(quote),
                kobo_note_row(ids[run.used + 1 as int], item, quote),
            );
        }
    }
}

/// With fresh identifiers enough and dates that can be read, the bookmarks
/// of the export are added.
pub proof fn lemma_kobo_items_succeed(
    run: Run,
    items: Seq<KoboQuote>,
    now: Timestamp,
    ids: Seq<String>,
)
    requires
        ids_fresh(ids, run.used, run.store),
        run.used + 2 * items.len() <= ids.len(),
        forall|t: int| 0 <= t < items.len() ==> kobo_dates(#[trigger] items[t]) is Ok,
    ensures
        kobo_items(run, items, now, ids) is Ok,
    decreases items.len(),
{
    if items.len() > 0 {
        lemma_kobo_item_step_succeeds(run, items[0], now, ids);
        let mid = kobo_item_step(run, items[0], now, ids)->Ok_0;
        let rest = items.drop_first();
        lemma_kobo_items_succeed(mid, rest, now, ids);
    }
}

/// An import of a Kobo export succeeds where the dates of its bookmarks can
/// be read and the identifiers on offer are new to the store, differ from
/// each other, and are as many as the rows that the import can add.
pub proof fn law_kobo_import_succeeds(
    store: StoreView,
    export: KoboExport,
    now: Timestamp,
    ids: Seq<String>,
)
    requires
        ids_fresh(ids, 0, store),
        ids.len() >= kobo_rows_at_most(export),
        forall|t: int| 0 <= t < export.items@.len() ==> kobo_dates(#[trigger] export.items@[t]) is Ok,
    ensures
        kobo_run(store, export, now, ids) is Ok,
{
    lemma_unknown_chapters_bounded(export.chapters@, store.chapters);
    lemma_kobo_books_succeed(fresh_run(store), export.chapters@, export.books@, now, ids);
    let booked = kobo_books(fresh_run(store), export.chapters@, export.books@, now, ids)->Ok_0;
    lemma_kobo_items_succeed(booked, export.items@, now, ids);
}

/// With two fresh identifiers, a book of Apple Books is looked at with
/// success.
pub proof fn lemma_ibooks_book_step_succeeds(
    run: Run,
    quotes: Seq<IBooksQuote>,
    book: IBooksBookAuthor,
    now: Timestamp,
    ids: Seq<String>,
)
    requires
        ids_fresh(ids, run.used, run.store),
        run.used + 2 <= ids.len(),
    ensures
        ibooks_book_step(run, quotes, book, now, ids) matches Ok(next) && {
            &&& ids_fresh(ids, next.used, next.store)
            &&& next.used <= run.used + 2
        },
{
    if first_from(quotes, annotation_in(book.id@), 0) is Some && first_from(
        run.store.books,
        book_from(book.id@),
        0,
    ) is None {
        lemma_book_author_resolves(run, book.author, now, ids);
        let resolved = book_author_resolved(run, book.author, now, ids)->Ok_0;
        let row = new_book(
            ids[resolved.0.used as int],
            book.title,
            resolved.1,
            Some(book.id),
            now,
        );
        lemma_fresh_after_book(ids, resolved.0.used, resolved.0.store, row);
    }
}

/// With fresh identifiers enough, the books of Apple Books are looked at
/// with success.
pub proof fn lemma_ibooks_books_succeed(
    run: Run,
    quotes: Seq<IBooksQuote>,
    books: Seq<IBooksBookAuthor>,
    now: Timestamp,
    ids: Seq<String>,
)
    requires
        ids_fresh(ids, run.used, run.store),
        run.used + 2 * books.len() <= ids.len(),
    ensures
        ibooks_books(run, quotes, books, now, ids) matches Ok(next) && {
            &&& ids_fresh(ids, next.used, next.store)
            &&& next.used <= run.used + 2 * books.len()
        },
    decreases books.len(),
{
    if books.len() > 0 {
        lemma_ibooks_book_step_succeeds(run, quotes, books[0], now, ids);
        let mid = ibooks_book_step(run, quotes, books[0], now, ids)->Ok_0;
        lemma_ibooks_books_succeed(mid, quotes, books.drop_first(), now, ids);
    }
}

/// With two fresh identifiers, an annotation is looked at with success.
pub proof fn lemma_ibooks_quote_step_succeeds(
    run: Run,
    quote: IBooksQuote,
    now: Timestamp,
    ids: Seq<String>,
)
    requires
        ids_fresh(ids, run.used, run.store),
        run.used + 2 <= ids.len(),
    ensures
        ibooks_quote_step(run, quote, now, ids) matches Ok(next) && {
            &&& ids_fresh(ids, next.used, next.store)
            &&& next.used <= run.used + 2
        },
{
    if first_from(run.store.quotes, quote_from(quote.id@), 0) is None {
        match owner_of(run.store.books, quote.book_id@) {
            None => {},
            Some(owner) => {
                let row = ibooks_quote_row(ids[run.used as int], quote, owner, now);
                lemma_fresh_after_quote(ids, run.used, run.store, row);
                if ibooks_has_note(quote) {
                    lemma_fresh_after_note(
                        ids,
                        run.used + 1,
                        run.store.with_quote(row),
                        ibooks_note_row(ids[run.used + 1 as int], quote, row),
                    );
                }
            },
        }
    }
}

/// With fresh identifiers enough, the annotations are looked at with
/// success.
pub proof fn lemma_ibooks_quotes_succeed(
    run: Run,
    quotes: Seq<IBooksQuote>,
    now: Timestamp,
    ids: Seq<String>,
)
    requires
        ids_fresh(ids, run.used, run.store),
        run.used + 2 * quotes.len() <= ids.len(),
    ensures
        ibooks_quotes(run, quotes, now, ids) is Ok,
    decreases quotes.len(),
{
    if quotes.len() > 0 {
        lemma_ibooks_quote_step_succeeds(run, quotes[0], now, ids);
        let mid = ibooks_quote_step(run, quotes[0], now, ids)->Ok_0;
        lemma_ibooks_quotes_succeed(mid, quotes.drop_first(), now, ids);
    }
}

/// An import from Apple Books succeeds where the identifiers on offer are
/// new to the store, differ from each other, and are as many as the rows
/// that the import can add.
pub proof fn law_ibooks_import_succeeds(
    store: StoreView,
    export: IBooksExport,
    now: Timestamp,
    ids: Seq<String>,
)
    requires
        ids_fresh(ids, 0, store),
        ids.len() >= ibooks_rows_at_most(export),
    ensures
        ibooks_run(store, export, now, ids) is Ok,
{
    lemma_ibooks_books_succeed(fresh_run(store), export.quotes@, export.books@, now, ids);
    let booked = ibooks_books(fresh_run(store), export.quotes@, export.books@, now, ids)->Ok_0;
    lemma_ibooks_quotes_succeed(booked, export.quotes@, now, ids);
}

/// With three fresh identifiers, an entry of a clippings file is looked at
/// with success.
pub proof fn lemma_kindle_step_succeeds(run: Run, entry: Clipping, now: Timestamp, ids: Seq<String>)
    requires
        ids_fresh(ids, run.used, run.store),
        run.used + 3 <= ids.len(),
    ensures
        kindle_step(run, entry, now, ids) matches Ok(next) && {
            &&& ids_fresh(ids, next.used, next.store)
            &&& next.used <= run.used + 3
        },
{
    if owner_of(run.store.books, entry.title@) is None {
        lemma_fresh_after_book(
            ids,
            run.used,
            run.store,
            new_book(ids[run.used as int], entry.title, None, Some(entry.title), now),
        );
    }
    let booked = kindle_book_resolved(run, entry.title, now, ids)->Ok_0;
    lemma_book_author_resolves(booked.0, entry.author, now, ids);
    let known = book_author_resolved(booked.0, entry.author, now, ids)->Ok_0;
    if entry.content is Some {
        if entry.entry_type == EntryKind::Highlight && first_from(
            known.0.store.quotes,
            quote_saying(booked.1@, entry.content->0@),
            0,
        ) is None {
            lemma_fresh_after_quote(
                ids,
                known.0.used,
                known.0.store,
                kindle_quote_row(ids[known.0.used as int], entry, booked.1, known.1, now),
            );
        }
        if entry.entry_type == EntryKind::Note {
            lemma_fresh_after_note(
                ids,
                known.0.used,
                known.0.store,
                kindle_note_row(ids[known.0.used as int], entry, booked.1, known.1),
            );
        }
    }
}

/// With fresh identifiers enough, the entries of a clippings file are
/// looked at with success.
pub proof fn lemma_kindle_entries_succeed(
    run: Run,
    entries: Seq<Clipping>,
    now: Timestamp,
    ids: Seq<String>,
)
    requires
        ids_fresh(ids, run.used, run.store),
        run.used + 3 * entries.len() <= ids.len(),
    ensures
        kindle_entries(run, entries, now, ids) is Ok,
    decreases entries.len(),
{
    if entries.len() > 0 {
        lemma_kindle_step_succeeds(run, entries[0], now, ids);
        let mid = kindle_step(run, entries[0], now, ids)->Ok_0;
        lemma_kindle_entries_succeed(mid, entries.drop_first(), now, ids);
    }
}

/// An import of the entries of a clippings file succeeds where the
/// identifiers on offer are new to the store, differ from each other, and
/// are as many as the rows that the import can add.
pub proof fn law_kindle_import_succeeds(
    store: StoreView,
    entries: Seq<Clipping>,
    now: Timestamp,
    ids: Seq<String>,
)
    requires
        ids_fresh(ids, 0, store),
        ids.len() >= kindle_rows_at_most(entries.len() as int),
    ensures
        kindle_entries(fresh_run(store), entries, now, ids) is Ok,
{
    lemma_kindle_entries_succeed(fresh_run(store), entries, now, ids);
}

} // verus!
