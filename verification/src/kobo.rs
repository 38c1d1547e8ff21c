//! Import of what a Kobo reader exports: books with their authors, the
//! chapters of each book, and bookmarks that are highlights or notes.

use crate::datetime::{normalized, parse_datetime, Timestamp};
use crate::error::{
    refused, FAILED_BOOK, FAILED_CHAPTER, FAILED_NOTE, FAILED_QUOTE, Failure, ImportError,
};
use crate::models::{clone_text, Chapter, Note, Quote};
use crate::reconcile::{
    book_author_resolved, book_links_hold, chapter_links_hold, chapter_of, fresh_run, ids_for,
    ledger_sound, lemma_book_links_survive, lemma_chapter_links_survive, outcome_view, owner_of,
    owning_book, owning_chapter, refusal, resolve_book_author, rows_at_most, run_of, take_id,
    BookLink, ChapterLink, ImportSummary, Ledger, Run,
};
use crate::store::{
    book_from, chapter_from, first_match, get_book_by_original_id, get_chapter_by_original_id,
    get_quote_by_original_id, insert_book_with_defaults, insert_chapter, insert_note, insert_quote,
    lemma_missing_then_pushed, new_book, quote_from, Store, StoreView,
};
use crate::text::same_text;
use vstd::prelude::*;

verus! {

/// A book of the export with its author, who may be unknown.
#[derive(Debug, Clone, PartialEq, Eq)]
pub struct KoboBook {
    pub volume_id: String,
    pub title: String,
    pub author: Option<String>,
}

/// A chapter of the export; `book_id` is the `volume_id` of its book.
#[derive(Debug, Clone, PartialEq, Eq)]
pub struct KoboChapter {
    pub content_id: String,
    pub book_id: String,
    pub book_title: String,
    pub title: String,
    pub volume_index: i64,
}

/// A bookmark of the export. `item_type` tells a highlight from a note;
/// `chapter_progress` is the bit pattern of a double-precision fraction.
#[derive(Debug, Clone, PartialEq, Eq)]
pub struct KoboQuote {
    pub volume_id: String,
    pub text: Option<String>,
    pub annotation: Option<String>,
    pub date_created: String,
    pub date_modified: Option<String>,
    pub chapter_progress: u64,
    pub book_title: String,
    pub chapter: String,
    pub bookmark_id: String,
    pub item_type: String,
}

/// All that one export holds. The chapters of a book are those whose
/// `book_id` is the book's `volume_id`, in the order in which they stand.
#[derive(Debug, Clone, PartialEq, Eq)]
pub struct KoboExport {
    pub books: Vec<KoboBook>,
    pub chapters: Vec<KoboChapter>,
    pub items: Vec<KoboQuote>,
}

/// How an export lays out its bookmarks, which changed with version 175.
#[derive(Debug, Clone, Copy, PartialEq, Eq, Structural)]
pub enum KoboLayout {
    /// Bookmarks join the contents of their volume.
    ByVolume,
    /// Bookmarks join the content that they point at.
    ByContent,
}

/// The first version of the export that lays bookmarks out by volume.
pub const KOBO_VOLUME_LAYOUT_SINCE: i32 = 175;

/// What introduces the reason in the failure for an unreadable date.
pub const BAD_DATETIME: &'static str = "Error parsing datetime => ";

/// The word by which an export marks a bookmark as a note.
pub const KOBO_NOTE: &'static str = "note";

/// The layout that an export of version `db_version` uses.
pub fn kobo_layout(db_version: i32) -> (layout: KoboLayout)
    ensures
        layout == if db_version >= KOBO_VOLUME_LAYOUT_SINCE {
            KoboLayout::ByVolume
        } else {
            KoboLayout::ByContent
        },
{
    if db_version >= KOBO_VOLUME_LAYOUT_SINCE {
        KoboLayout::ByVolume
    } else {
        KoboLayout::ByContent
    }
}

/// The row that stands for a chapter of the export.
pub open spec fn kobo_chapter_row(
    id: String,
    book_id: String,
    chapter: KoboChapter,
    now: Timestamp,
) -> Chapter {
    Chapter {
        id,
        book_id: Some(book_id),
        title: chapter.title,
        created_at: now,
        updated_at: now,
        deleted_at: None,
        original_id: Some(chapter.content_id),
        volume_index: chapter.volume_index,
    }
}

/// The run after one chapter of the export was looked at for the book
/// `volume`: a chapter of another book, or one that the store knows, changes
/// nothing; a new one is added.
pub open spec fn kobo_chapter_step(
    run: Run,
    chapter: KoboChapter,
    volume: Seq<char>,
    book_id: String,
    now: Timestamp,
    ids: Seq<String>,
) -> Result<Run, Failure> {
    if chapter.book_id@ != volume {
        Ok(run)
    } else if first_match(run.store.chapters, chapter_from(chapter.content_id@)) is Some {
        Ok(run)
    } else if run.used < ids.len() && run.store.admits_chapter(
        kobo_chapter_row(ids[run.used as int], book_id, chapter, now),
    ) {
        Ok(
            Run {
                store: run.store.with_chapter(
                    kobo_chapter_row(ids[run.used as int], book_id, chapter, now),
                ),
                used: run.used + 1,
                ..run
            },
        )
    } else {
        Err(refusal(FAILED_CHAPTER))
    }
}

/// The run after all chapters were looked at for the book `volume`.
pub open spec fn kobo_chapters(
    run: Run,
    chapters: Seq<KoboChapter>,
    volume: Seq<char>,
    book_id: String,
    now: Timestamp,
    ids: Seq<String>,
) -> Result<Run, Failure>
    decreases chapters.len(),
{
    if chapters.len() == 0 {
        Ok(run)
    } else {
        match kobo_chapter_step(run, chapters[0], volume, book_id, now, ids) {
            Ok(next) => kobo_chapters(next, chapters.drop_first(), volume, book_id, now, ids),
            Err(e) => Err(e),
        }
    }
}

/// The run after one book of the export: a book that the store knows by its
/// volume changes nothing; for a new one the author is resolved, the book is
/// added and counted, and its chapters follow.
pub open spec fn kobo_book_step(
    run: Run,
    chapters: Seq<KoboChapter>,
    book: KoboBook,
    now: Timestamp,
    ids: Seq<String>,
) -> Result<Run, Failure> {
    if first_match(run.store.books, book_from(book.volume_id@)) is Some {
        Ok(run)
    } else {
        match book_author_resolved(run, book.author, now, ids) {
            Err(e) => Err(e),
            Ok((known, author_id)) => {
                let row = new_book(
                    ids[known.used as int],
                    book.title,
                    author_id,
                    Some(book.volume_id),
                    now,
                );
                if known.used < ids.len() && known.store.admits_book(row) {
                    kobo_chapters(
                        Run {
                            store: known.store.with_book(row),
                            new_books: known.new_books + 1,
                            used: known.used + 1,
                            ..known
                        },
                        chapters,
                        book.volume_id@,
                        ids[known.used as int],
                        now,
                        ids,
                    )
                } else {
                    Err(refusal(FAILED_BOOK))
                }
            },
        }
    }
}

/// The run after the books of the export, one after the other.
pub open spec fn kobo_books(
    run: Run,
    chapters: Seq<KoboChapter>,
    books: Seq<KoboBook>,
    now: Timestamp,
    ids: Seq<String>,
) -> Result<Run, Failure>
    decreases books.len(),
{
    if books.len() == 0 {
        Ok(run)
    } else {
        match kobo_book_step(run, chapters, books[0], now, ids) {
            Ok(next) => kobo_books(next, chapters, books.drop_first(), now, ids),
            Err(e) => Err(e),
        }
    }
}

/// The failure for a date that no recognised pattern accepts.
pub open spec fn bad_datetime(reason: Seq<char>) -> Failure {
    Failure::InvalidTimestamp(BAD_DATETIME@ + reason)
}

/// When a bookmark was made and when it was last changed; a bookmark that
/// was never changed was last changed when it was made.
pub open spec fn kobo_dates(item: KoboQuote) -> Result<(Timestamp, Timestamp), Failure> {
    match normalized(item.date_created@) {
        Err(reason) => Err(bad_datetime(reason)),
        Ok(created) => match item.date_modified {
            None => Ok((created, created)),
            Some(text) => match normalized(text@) {
                Err(reason) => Err(bad_datetime(reason)),
                Ok(modified) => Ok((created, modified)),
            },
        },
    }
}

/// Whether a bookmark is a note: it is marked as one and its annotation is
/// not empty.
pub open spec fn kobo_is_note(item: KoboQuote) -> bool {
    &&& item.item_type@ == KOBO_NOTE@
    &&& item.annotation is Some
    &&& item.annotation->0@.len() > 0
}

/// The quote that stands for a bookmark.
pub open spec fn kobo_quote_row(
    id: String,
    item: KoboQuote,
    owner: Option<(String, Option<String>)>,
    chapter_id: Option<String>,
    dates: (Timestamp, Timestamp),
    now: Timestamp,
) -> Quote {
    Quote {
        id,
        book_id: match owner {
            Some(found) => Some(found.0),
            None => None,
        },
        author_id: match owner {
            Some(found) => found.1,
            None => None,
        },
        chapter_id,
        chapter_progress: Some(item.chapter_progress),
        content: item.text,
        starred: Some(0),
        created_at: dates.0,
        updated_at: dates.1,
        imported_at: Some(now),
        deleted_at: None,
        original_id: Some(item.bookmark_id),
    }
}

/// The note that stands for the annotation of a bookmark, tied to the quote
/// made of the same bookmark.
pub open spec fn kobo_note_row(id: String, item: KoboQuote, quote: Quote) -> Note {
    Note {
        id,
        book_id: quote.book_id,
        author_id: quote.author_id,
        quote_id: Some(quote.id),
        content: item.annotation,
        created_at: quote.created_at,
        updated_at: quote.updated_at,
        deleted_at: None,
    }
}

/// The quote that a run at `run` makes of a bookmark whose dates are
/// `dates`.
pub open spec fn kobo_quote_at(
    run: Run,
    item: KoboQuote,
    dates: (Timestamp, Timestamp),
    now: Timestamp,
    ids: Seq<String>,
) -> Quote {
    kobo_quote_row(
        ids[run.used as int],
        item,
        owner_of(run.store.books, item.volume_id@),
        chapter_of(run.store.chapters, item.chapter@),
        dates,
        now,
    )
}

/// The run after one bookmark: one that the store knows changes nothing;
/// a new one needs its dates, becomes a quote that is counted, and, where it
/// is a note, a note on that quote as well.
pub open spec fn kobo_item_step(run: Run, item: KoboQuote, now: Timestamp, ids: Seq<String>) -> Result<
    Run,
    Failure,
> {
    if first_match(run.store.quotes, quote_from(item.bookmark_id@)) is Some {
        Ok(run)
    } else {
        match kobo_dates(item) {
            Err(e) => Err(e),
            Ok(dates) => {
                let quote = kobo_quote_at(run, item, dates, now, ids);
                if run.used < ids.len() && run.store.admits_quote(quote) {
                    let quoted = Run {
                        store: run.store.with_quote(quote),
                        new_quotes: run.new_quotes + 1,
                        used: run.used + 1,
                        ..run
                    };
                    if !kobo_is_note(item) {
                        Ok(quoted)
                    } else {
                        let note = kobo_note_row(ids[quoted.used as int], item, quote);
                        if quoted.used < ids.len() && quoted.store.admits_note(note) {
                            Ok(
                                Run {
                                    store: quoted.store.with_note(note),
                                    used: quoted.used + 1,
                                    ..quoted
                                },
                            )
                        } else {
                            Err(refusal(FAILED_NOTE))
                        }
                    }
                } else {
                    Err(refusal(FAILED_QUOTE))
                }
            },
        }
    }
}

/// The run after the bookmarks of the export, one after the other.
pub open spec fn kobo_items(run: Run, items: Seq<KoboQuote>, now: Timestamp, ids: Seq<String>) -> Result<
    Run,
    Failure,
>
    decreases items.len(),
{
    if items.len() == 0 {
        Ok(run)
    } else {
        match kobo_item_step(run, items[0], now, ids) {
            Ok(next) => kobo_items(next, items.drop_first(), now, ids),
            Err(e) => Err(e),
        }
    }
}

/// A whole run over an export: the books with their chapters first, the
/// bookmarks after them.
pub open spec fn kobo_run(
    store: StoreView,
    export: KoboExport,
    now: Timestamp,
    ids: Seq<String>,
) -> Result<Run, Failure> {
    match kobo_books(fresh_run(store), export.chapters@, export.books@, now, ids) {
        Ok(booked) => kobo_items(booked, export.items@, now, ids),
        Err(e) => Err(e),
    }
}

/// The failure for a date that no recognised pattern accepts.
fn unreadable_date(reason: &String) -> (e: ImportError)
    ensures
        e@ == bad_datetime(reason@),
{
    ImportError::InvalidTimestamp(String::from_str(BAD_DATETIME).concat(reason.as_str()))
}

/// Reads the two dates of a bookmark.
fn read_kobo_dates(item: &KoboQuote) -> (r: Result<(Timestamp, Timestamp), ImportError>)
    ensures
        match kobo_dates(*item) {
            Ok(dates) => r == Ok::<(Timestamp, Timestamp), ImportError>(dates),
            Err(e) => r is Err && r->Err_0@ == e,
        },
{
    let created = match parse_datetime(item.date_created.as_str()) {
        Ok(t) => t,
        Err(e) => {
            return Err(unreadable_date(&e.reason));
        },
    };
    match &item.date_modified {
        None => Ok((created, created)),
        Some(text) => match parse_datetime(text.as_str()) {
            Ok(modified) => Ok((created, modified)),
            Err(e) => Err(unreadable_date(&e.reason)),
        },
    }
}

/// Whether a bookmark is a note with something in it.
fn is_kobo_note(item: &KoboQuote) -> (r: bool)
    ensures
        r == kobo_is_note(*item),
{
    if !same_text(item.item_type.as_str(), KOBO_NOTE) {
        return false;
    }
    match &item.annotation {
        Some(a) => !a.as_str().is_empty(),
        None => false,
    }
}

/// Looks at one chapter of the export for the book `volume`.
fn import_kobo_chapter(
    chapter: &KoboChapter,
    volume: &String,
    book_id: &String,
    now: Timestamp,
    ids: &Vec<String>,
    links: &mut Vec<ChapterLink>,
    ledger: &mut Ledger,
    store: &mut Store,
) -> (r: Result<(), ImportError>)
    requires
        chapter_links_hold(old(links)@, old(store)@.chapters),
        ledger_sound(*old(ledger), ids@),
    ensures
        match kobo_chapter_step(
            run_of(old(store)@, *old(ledger)),
            *chapter,
            volume@,
            *book_id,
            now,
            ids@,
        ) {
            Ok(run) => r is Ok && run_of(final(store)@, *final(ledger)) == run,
            Err(e) => r is Err && r->Err_0@ == e,
        },
        chapter_links_hold(final(links)@, final(store)@.chapters),
        ledger_sound(*final(ledger), ids@),
        final(store)@.extends(old(store)@),
        final(store)@.books == old(store)@.books,
{
    if chapter.book_id != *volume {
        return Ok(());
    }
    match get_chapter_by_original_id(&chapter.content_id, store) {
        Some(existing) => {
            links.push(
                ChapterLink { origin: chapter.content_id.clone(), chapter_id: existing.id.clone() },
            );
            return Ok(());
        },
        None => {},
    }
    let id = match take_id(ids, ledger) {
        Some(id) => id,
        None => {
            return Err(refused(FAILED_CHAPTER));
        },
    };
    let row = Chapter {
        id: id.clone(),
        book_id: Some(book_id.clone()),
        title: chapter.title.clone(),
        created_at: now,
        updated_at: now,
        deleted_at: None,
        original_id: Some(chapter.content_id.clone()),
        volume_index: chapter.volume_index,
    };
    let ghost before = store@;
    match insert_chapter(row, store) {
        Ok(()) => {},
        Err(_) => {
            return Err(refused(FAILED_CHAPTER));
        },
    }
    proof {
        lemma_chapter_links_survive(links@, before.chapters, store@.chapters);
        lemma_missing_then_pushed(before.chapters, row, chapter_from(chapter.content_id@));
    }
    links.push(ChapterLink { origin: chapter.content_id.clone(), chapter_id: id });
    Ok(())
}

/// Looks at one book of the export, and at its chapters where it is new.
fn import_kobo_book(
    book: &KoboBook,
    chapters: &Vec<KoboChapter>,
    now: Timestamp,
    ids: &Vec<String>,
    book_links: &mut Vec<BookLink>,
    chapter_links: &mut Vec<ChapterLink>,
    ledger: &mut Ledger,
    store: &mut Store,
) -> (r: Result<(), ImportError>)
    requires
        book_links_hold(old(book_links)@, old(store)@.books),
        chapter_links_hold(old(chapter_links)@, old(store)@.chapters),
        ledger_sound(*old(ledger), ids@),
    ensures
        match kobo_book_step(run_of(old(store)@, *old(ledger)), chapters@, *book, now, ids@) {
            Ok(run) => r is Ok && run_of(final(store)@, *final(ledger)) == run,
            Err(e) => r is Err && r->Err_0@ == e,
        },
        book_links_hold(final(book_links)@, final(store)@.books),
        chapter_links_hold(final(chapter_links)@, final(store)@.chapters),
        ledger_sound(*final(ledger), ids@),
        final(store)@.extends(old(store)@),
{
    match get_book_by_original_id(&book.volume_id, store) {
        Some(existing) => {
            book_links.push(
                BookLink {
                    origin: book.volume_id.clone(),
                    book_id: existing.id.clone(),
                    author_id: clone_text(&existing.author_id),
                },
            );
            return Ok(());
        },
        None => {},
    }
    let author_id = match resolve_book_author(&book.author, now, ids, ledger, store) {
        Ok(a) => a,
        Err(e) => {
            return Err(e);
        },
    };
    let id = match take_id(ids, ledger) {
        Some(id) => id,
        None => {
            return Err(refused(FAILED_BOOK));
        },
    };
    let ghost known = store@;
    let ghost row = new_book(id, book.title, author_id, Some(book.volume_id), now);
    match insert_book_with_defaults(
        book.title.clone(),
        clone_text(&author_id),
        Some(book.volume_id.clone()),
        id.clone(),
        now,
        store,
    ) {
        Ok(()) => {},
        Err(_) => {
            return Err(refused(FAILED_BOOK));
        },
    }
    ledger.new_books = ledger.new_books + 1;
    proof {
        lemma_book_links_survive(book_links@, known.books, store@.books);
        lemma_missing_then_pushed(known.books, row, book_from(book.volume_id@));
    }
    book_links.push(
        BookLink { origin: book.volume_id.clone(), book_id: id.clone(), author_id },
    );
    assert(chapters@.skip(0) =~= chapters@);
    let mut j: usize = 0;
    while j < chapters.len()
        invariant
            j <= chapters.len(),
            book_links_hold(book_links@, store@.books),
            chapter_links_hold(chapter_links@, store@.chapters),
            ledger_sound(*ledger, ids@),
            store@.extends(old(store)@),
            kobo_book_step(run_of(old(store)@, *old(ledger)), chapters@, *book, now, ids@)
                == kobo_chapters(
                run_of(store@, *ledger),
                chapters@.skip(j as int),
                book.volume_id@,
                id,
                now,
                ids@,
            ),
        decreases chapters.len() - j,
    {
        assert(chapters@.skip(j as int).drop_first() =~= chapters@.skip(j as int + 1));
        match import_kobo_chapter(
            &chapters[j],
            &book.volume_id,
            &id,
            now,
            ids,
            chapter_links,
            ledger,
            store,
        ) {
            Ok(()) => {},
            Err(e) => {
                return Err(e);
            },
        }
        j += 1;
    }
    Ok(())
}

/// Looks at one bookmark of the export.
fn import_kobo_item(
    item: &KoboQuote,
    now: Timestamp,
    ids: &Vec<String>,
    book_links: &Vec<BookLink>,
    chapter_links: &Vec<ChapterLink>,
    ledger: &mut Ledger,
    store: &mut Store,
) -> (r: Result<(), ImportError>)
    requires
        book_links_hold(book_links@, old(store)@.books),
        chapter_links_hold(chapter_links@, old(store)@.chapters),
        ledger_sound(*old(ledger), ids@),
    ensures
        match kobo_item_step(run_of(old(store)@, *old(ledger)), *item, now, ids@) {
            Ok(run) => r is Ok && run_of(final(store)@, *final(ledger)) == run,
            Err(e) => r is Err && r->Err_0@ == e,
        },
        ledger_sound(*final(ledger), ids@),
        final(store)@.extends(old(store)@),
        final(store)@.books == old(store)@.books,
        final(store)@.chapters == old(store)@.chapters,
{
    if get_quote_by_original_id(&item.bookmark_id, store).is_some() {
        return Ok(());
    }
    let dates = match read_kobo_dates(item) {
        Ok(d) => d,
        Err(e) => {
            return Err(e);
        },
    };
    let owner = owning_book(&item.volume_id, book_links, store);
    let chapter_id = owning_chapter(&item.chapter, chapter_links, store);
    let id = match take_id(ids, ledger) {
        Some(id) => id,
        None => {
            return Err(refused(FAILED_QUOTE));
        },
    };
    let (book_id, author_id) = match owner {
        Some((b, a)) => (Some(b), a),
        None => (None, None),
    };
    let quote = Quote {
        id: id.clone(),
        book_id: clone_text(&book_id),
        author_id: clone_text(&author_id),
        chapter_id,
        chapter_progress: Some(item.chapter_progress),
        content: clone_text(&item.text),
        starred: Some(0),
        created_at: dates.0,
        updated_at: dates.1,
        imported_at: Some(now),
        deleted_at: None,
        original_id: Some(item.bookmark_id.clone()),
    };
    match insert_quote(quote, store) {
        Ok(()) => {},
        Err(_) => {
            return Err(refused(FAILED_QUOTE));
        },
    }
    ledger.new_quotes = ledger.new_quotes + 1;
    if !is_kobo_note(item) {
        return Ok(());
    }
    let note_id = match take_id(ids, ledger) {
        Some(id) => id,
        None => {
            return Err(refused(FAILED_NOTE));
        },
    };
    let note = Note {
        id: note_id,
        book_id,
        author_id,
        quote_id: Some(id),
        content: clone_text(&item.annotation),
        created_at: dates.0,
        updated_at: dates.1,
        deleted_at: None,
    };
    match insert_note(note, store) {
        Ok(()) => {},
        Err(_) => {
            return Err(refused(FAILED_NOTE));
        },
    }
    Ok(())
}

/// Runs over the export without undoing anything where it fails.
fn run_kobo(
    store: &mut Store,
    export: &KoboExport,
    now: Timestamp,
    ids: &Vec<String>,
) -> (r: Result<ImportSummary, ImportError>)
    ensures
        match kobo_run(old(store)@, *export, now, ids@) {
            Ok(run) => r == Ok::<ImportSummary, ImportError>(
                ImportSummary {
                    new_books: run.new_books as usize,
                    new_quotes: run.new_quotes as usize,
                },
            ) && final(store)@ == run.store && run.new_books + run.new_quotes <= ids.len(),
            Err(e) => r is Err && r->Err_0@ == e,
        },
        final(store)@.extends(old(store)@),
{
    let mut ledger = Ledger { new_books: 0, new_quotes: 0, used: 0 };
    let mut book_links: Vec<BookLink> = Vec::new();
    let mut chapter_links: Vec<ChapterLink> = Vec::new();
    assert(export.books@.skip(0) =~= export.books@);
    let mut i: usize = 0;
    while i < export.books.len()
        invariant
            i <= export.books.len(),
            book_links_hold(book_links@, store@.books),
            chapter_links_hold(chapter_links@, store@.chapters),
            ledger_sound(ledger, ids@),
            store@.extends(old(store)@),
            kobo_books(fresh_run(old(store)@), export.chapters@, export.books@, now, ids@)
                == kobo_books(
                run_of(store@, ledger),
                export.chapters@,
                export.books@.skip(i as int),
                now,
                ids@,
            ),
        decreases export.books.len() - i,
    {
        assert(export.books@.skip(i as int).drop_first() =~= export.books@.skip(i as int + 1));
        match import_kobo_book(
            &export.books[i],
            &export.chapters,
            now,
            ids,
            &mut book_links,
            &mut chapter_links,
            &mut ledger,
            store,
        ) {
            Ok(()) => {},
            Err(e) => {
                return Err(e);
            },
        }
        i += 1;
    }
    assert(export.items@.skip(0) =~= export.items@);
    let mut t: usize = 0;
    while t < export.items.len()
        invariant
            t <= export.items.len(),
            book_links_hold(book_links@, store@.books),
            chapter_links_hold(chapter_links@, store@.chapters),
            ledger_sound(ledger, ids@),
            store@.extends(old(store)@),
            kobo_run(old(store)@, *export, now, ids@) == kobo_items(
                run_of(store@, ledger),
                export.items@.skip(t as int),
                now,
                ids@,
            ),
        decreases export.items.len() - t,
    {
        assert(export.items@.skip(t as int).drop_first() =~= export.items@.skip(t as int + 1));
        match import_kobo_item(
            &export.items[t],
            now,
            ids,
            &book_links,
            &chapter_links,
            &mut ledger,
            store,
        ) {
            Ok(()) => {},
            Err(e) => {
                return Err(e);
            },
        }
        t += 1;
    }
    Ok(ImportSummary { new_books: ledger.new_books, new_quotes: ledger.new_quotes })
}

/// What an import of `export` into `store` returns and leaves behind: the
/// counts and the grown tables where the run succeeds, the failure and the
/// tables as they were where it does not.
pub open spec fn kobo_outcome(
    store: StoreView,
    export: KoboExport,
    now: Timestamp,
    ids: Seq<String>,
) -> (Result<ImportSummary, Failure>, StoreView) {
    match kobo_run(store, export, now, ids) {
        Ok(run) => (
            Ok(
                ImportSummary {
                    new_books: run.new_books as usize,
                    new_quotes: run.new_quotes as usize,
                },
            ),
            run.store,
        ),
        Err(e) => (Err(e), store),
    }
}

/// Imports a Kobo export into `store`. New rows take their identifiers from
/// `ids` in order, and `now` as the time of the import. Where the run fails
/// the store is left as it was.
pub fn import_kobo_with_ids(
    store: &mut Store,
    export: &KoboExport,
    now: Timestamp,
    ids: &Vec<String>,
) -> (r: Result<ImportSummary, ImportError>)
    ensures
        (outcome_view(r), final(store)@) == kobo_outcome(old(store)@, *export, now, ids@),
        r is Err ==> final(store)@ == old(store)@,
{
    let mark = store.savepoint();
    match run_kobo(store, export, now, ids) {
        Ok(summary) => Ok(summary),
        Err(e) => {
            store.rollback(&mark);
            Err(e)
        },
    }
}

/// How many rows an import of `export` can add at most: an author and a
/// book for each book, a chapter for each chapter, a quote and a note for
/// each bookmark.
pub open spec fn kobo_rows_at_most(export: KoboExport) -> nat {
    2 * (export.books@.len() + export.items@.len()) + export.chapters@.len()
}

/// Imports a Kobo export into `store` at the time `now`, under identifiers
/// drawn at random. Where the run fails the store is left as it was.
pub fn import_kobo(store: &mut Store, export: &KoboExport, now: Timestamp) -> (r: Result<
    ImportSummary,
    ImportError,
>)
    ensures
        r is Err ==> final(store)@ == old(store)@,
        kobo_rows_at_most(*export) > usize::MAX ==> r is Err && r->Err_0@ == refusal(
            crate::error::TOO_MANY_RECORDS,
        ),
        kobo_rows_at_most(*export) <= usize::MAX ==> exists|ids: Seq<String>|
            #![auto]
            ids.len() == kobo_rows_at_most(*export) && (outcome_view(r), final(store)@)
                == kobo_outcome(old(store)@, *export, now, ids),
{
    let rows = match export.books.len().checked_add(export.items.len()) {
        Some(pairs) => rows_at_most(pairs, export.chapters.len()),
        None => None,
    };
    match ids_for(rows) {
        Ok(ids) => import_kobo_with_ids(store, export, now, &ids),
        Err(e) => Err(e),
    }
}

} // verus!
