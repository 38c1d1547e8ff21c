//! What the three importers share: the state of a run, the identifiers that
//! it hands to new rows, and the resolution of authors, books and chapters,
//! with the links that a run remembers.

use crate::datetime::Timestamp;
use crate::error::{refused, FAILED_AUTHOR, TOO_MANY_RECORDS, Failure, ImportError};
use crate::models::{clone_text, Book, Chapter};
use crate::store::{
    author_named, book_from, chapter_from, first_match, get_author_by_name,
    get_book_by_original_id, get_chapter_by_original_id, insert_author, lemma_found_stays,
    new_author, Store, StoreView,
};
use vstd::prelude::*;

verus! {

/// What a run reports when it is done: the books and the quotes that it
/// added. Rows that were there already are not counted.
#[derive(Debug, Clone, Copy, PartialEq, Eq)]
pub struct ImportSummary {
    pub new_books: usize,
    pub new_quotes: usize,
}

/// The counters of a run: the books and the quotes added so far, and how
/// many of the identifiers on offer have been handed out.
#[derive(Debug, Clone, Copy, PartialEq, Eq)]
pub struct Ledger {
    pub new_books: usize,
    pub new_quotes: usize,
    pub used: usize,
}

/// A run at one moment: the tables and the counters.
pub ghost struct Run {
    pub store: StoreView,
    pub new_books: nat,
    pub new_quotes: nat,
    pub used: nat,
}

/// The run that a store and a ledger stand for.
pub open spec fn run_of(store: StoreView, ledger: Ledger) -> Run {
    Run {
        store,
        new_books: ledger.new_books as nat,
        new_quotes: ledger.new_quotes as nat,
        used: ledger.used as nat,
    }
}

/// A run that has done nothing yet.
pub open spec fn fresh_run(store: StoreView) -> Run {
    Run { store, new_books: 0, new_quotes: 0, used: 0 }
}

/// Whether the ledger counts no more rows than identifiers were handed out,
/// and no more of those than are on offer.
pub open spec fn ledger_sound(ledger: Ledger, ids: Seq<String>) -> bool {
    ledger.new_books + ledger.new_quotes <= ledger.used <= ids.len()
}

/// An exec result with its failure taken by its view.
pub open spec fn outcome_view(r: Result<ImportSummary, ImportError>) -> Result<
    ImportSummary,
    Failure,
> {
    match r {
        Ok(summary) => Ok(summary),
        Err(e) => Err(e@),
    }
}

/// The failure of the store to take a row, with the sentence `what`.
pub open spec fn refusal(what: &str) -> Failure {
    Failure::PersistenceError(what@)
}

/// The run after the author `name` was resolved, and the author's
/// identifier: that of the first author of that name, or else the next
/// identifier on offer, under which the author is added.
pub open spec fn author_resolved(run: Run, name: String, now: Timestamp, ids: Seq<String>) -> Result<
    (Run, String),
    Failure,
> {
    match first_match(run.store.authors, author_named(name@)) {
        Some(a) => Ok((run, a.id)),
        None => {
            if run.used < ids.len() && run.store.admits_author(
                new_author(ids[run.used as int], name, now),
            ) {
                Ok(
                    (
                        Run {
                            store: run.store.with_author(
                                new_author(ids[run.used as int], name, now),
                            ),
                            used: run.used + 1,
                            ..run
                        },
                        ids[run.used as int],
                    ),
                )
            } else {
                Err(refusal(FAILED_AUTHOR))
            }
        },
    }
}

/// The run after the author of a book, who may be unknown, was resolved.
pub open spec fn book_author_resolved(
    run: Run,
    author: Option<String>,
    now: Timestamp,
    ids: Seq<String>,
) -> Result<(Run, Option<String>), Failure> {
    match author {
        None => Ok((run, None)),
        Some(name) => match author_resolved(run, name, now, ids) {
            Ok((next, id)) => Ok((next, Some(id))),
            Err(e) => Err(e),
        },
    }
}

/// The book that a source knows as `origin`: its identifier and its author.
pub open spec fn owner_of(books: Seq<Book>, origin: Seq<char>) -> Option<(String, Option<String>)> {
    match first_match(books, book_from(origin)) {
        Some(b) => Some((b.id, b.author_id)),
        None => None,
    }
}

/// The identifier of the chapter that a source knows as `origin`.
pub open spec fn chapter_of(chapters: Seq<Chapter>, origin: Seq<char>) -> Option<String> {
    match first_match(chapters, chapter_from(origin)) {
        Some(c) => Some(c.id),
        None => None,
    }
}

/// What a run remembers of a book that it resolved: the identifier that the
/// source gave, the book's own and its author's.
#[derive(Debug, Clone, PartialEq, Eq)]
pub struct BookLink {
    pub origin: String,
    pub book_id: String,
    pub author_id: Option<String>,
}

/// What a run remembers of a chapter that it resolved.
#[derive(Debug, Clone, PartialEq, Eq)]
pub struct ChapterLink {
    pub origin: String,
    pub chapter_id: String,
}

/// Whether every remembered book is what a lookup in `books` would give.
pub open spec fn book_links_hold(links: Seq<BookLink>, books: Seq<Book>) -> bool {
    forall|k: int|
        0 <= k < links.len() ==> owner_of(books, (#[trigger] links[k]).origin@) == Some(
            (links[k].book_id, links[k].author_id),
        )
}

/// Whether every remembered chapter is what a lookup in `chapters` would
/// give.
pub open spec fn chapter_links_hold(links: Seq<ChapterLink>, chapters: Seq<Chapter>) -> bool {
    forall|k: int|
        0 <= k < links.len() ==> chapter_of(chapters, (#[trigger] links[k]).origin@) == Some(
            links[k].chapter_id,
        )
}

/// Remembered books stay right while the table of books grows.
pub proof fn lemma_book_links_survive(links: Seq<BookLink>, earlier: Seq<Book>, later: Seq<Book>)
    requires
        book_links_hold(links, earlier),
        earlier.is_prefix_of(later),
    ensures
        book_links_hold(links, later),
{
    assert forall|k: int| 0 <= k < links.len() implies owner_of(
        later,
        (#[trigger] links[k]).origin@,
    ) == Some((links[k].book_id, links[k].author_id)) by {
        lemma_found_stays(earlier, later, book_from(links[k].origin@));
    }
}

/// Remembered chapters stay right while the table of chapters grows.
pub proof fn lemma_chapter_links_survive(
    links: Seq<ChapterLink>,
    earlier: Seq<Chapter>,
    later: Seq<Chapter>,
)
    requires
        chapter_links_hold(links, earlier),
        earlier.is_prefix_of(later),
    ensures
        chapter_links_hold(links, later),
{
    assert forall|k: int| 0 <= k < links.len() implies chapter_of(
        later,
        (#[trigger] links[k]).origin@,
    ) == Some(links[k].chapter_id) by {
        lemma_found_stays(earlier, later, chapter_from(links[k].origin@));
    }
}

/// Hands out the next identifier on offer, if one is left.
pub fn take_id(ids: &Vec<String>, ledger: &mut Ledger) -> (r: Option<String>)
    ensures
        match r {
            Some(id) => {
                &&& old(ledger).used < ids.len()
                &&& id == ids@[old(ledger).used as int]
                &&& *final(ledger) == Ledger { used: (old(ledger).used + 1) as usize, ..*old(ledger) }
            },
            None => old(ledger).used >= ids.len() && *final(ledger) == *old(ledger),
        },
{
    if ledger.used < ids.len() {
        let id = ids[ledger.used].clone();
        ledger.used = ledger.used + 1;
        Some(id)
    } else {
        None
    }
}

/// Calls `uuid::Uuid::new_v4` and writes the identifier out with its
/// hyphens. The identifier is drawn at random: nothing is claimed of it.
#[verifier::external_body]
fn fresh_id() -> String {
    uuid::Uuid::new_v4().to_string()
}

/// Draws `count` identifiers at random.
pub fn fresh_ids(count: usize) -> (ids: Vec<String>)
    ensures
        ids.len() == count,
{
    let mut ids: Vec<String> = Vec::new();
    while ids.len() < count
        invariant
            ids.len() <= count,
        decreases count - ids.len(),
    {
        ids.push(fresh_id());
    }
    ids
}

/// The identifiers that suffice for `rows` rows, or the failure for a
/// number of rows that no list can hold.
pub fn ids_for(rows: Option<usize>) -> (r: Result<Vec<String>, ImportError>)
    ensures
        match rows {
            Some(count) => r is Ok && r->Ok_0.len() == count,
            None => r is Err && r->Err_0@ == refusal(TOO_MANY_RECORDS),
        },
{
    match rows {
        Some(count) => Ok(fresh_ids(count)),
        None => Err(refused(TOO_MANY_RECORDS)),
    }
}

/// `twice` times two plus `once`, if the sum can be held.
pub fn rows_at_most(twice: usize, once: usize) -> (r: Option<usize>)
    ensures
        r == if 2 * twice + once <= usize::MAX {
            Some((2 * twice + once) as usize)
        } else {
            None
        },
{
    match twice.checked_add(twice) {
        Some(doubled) => doubled.checked_add(once),
        None => None,
    }
}

/// Resolves an author by name, and adds the author where the name is new.
pub fn resolve_author(
    name: &String,
    now: Timestamp,
    ids: &Vec<String>,
    ledger: &mut Ledger,
    store: &mut Store,
) -> (r: Result<String, ImportError>)
    ensures
        match author_resolved(run_of(old(store)@, *old(ledger)), *name, now, ids@) {
            Ok((run, id)) => r == Ok::<String, ImportError>(id) && run_of(
                final(store)@,
                *final(ledger),
            ) == run,
            Err(e) => r is Err && r->Err_0@ == e,
        },
        final(store)@.extends(old(store)@),
        final(store)@.books == old(store)@.books,
        final(store)@.chapters == old(store)@.chapters,
        final(store)@.quotes == old(store)@.quotes,
        final(store)@.notes == old(store)@.notes,
        final(ledger).new_books == old(ledger).new_books,
        final(ledger).new_quotes == old(ledger).new_quotes,
        old(ledger).used <= final(ledger).used <= old(ledger).used + 1,
        final(ledger).used <= ids.len() || final(ledger).used == old(ledger).used,
{
    match get_author_by_name(name, store) {
        Some(a) => {
            return Ok(a.id.clone());
        },
        None => {},
    }
    match take_id(ids, ledger) {
        Some(id) => {
            let kept = id.clone();
            match insert_author(name.clone(), id, now, store) {
                Ok(()) => Ok(kept),
                Err(_) => Err(refused(FAILED_AUTHOR)),
            }
        },
        None => Err(refused(FAILED_AUTHOR)),
    }
}

/// Resolves the author of a book, who may be unknown.
pub fn resolve_book_author(
    author: &Option<String>,
    now: Timestamp,
    ids: &Vec<String>,
    ledger: &mut Ledger,
    store: &mut Store,
) -> (r: Result<Option<String>, ImportError>)
    ensures
        match book_author_resolved(run_of(old(store)@, *old(ledger)), *author, now, ids@) {
            Ok((run, id)) => r == Ok::<Option<String>, ImportError>(id) && run_of(
                final(store)@,
                *final(ledger),
            ) == run,
            Err(e) => r is Err && r->Err_0@ == e,
        },
        final(store)@.extends(old(store)@),
        final(store)@.books == old(store)@.books,
        final(store)@.chapters == old(store)@.chapters,
        final(store)@.quotes == old(store)@.quotes,
        final(store)@.notes == old(store)@.notes,
        final(ledger).new_books == old(ledger).new_books,
        final(ledger).new_quotes == old(ledger).new_quotes,
        old(ledger).used <= final(ledger).used <= old(ledger).used + 1,
        final(ledger).used <= ids.len() || final(ledger).used == old(ledger).used,
{
    match author {
        None => {
            Ok(None)
        },
        Some(name) => match resolve_author(name, now, ids, ledger, store) {
            Ok(id) => Ok(Some(id)),
            Err(e) => Err(e),
        },
    }
}

/// The book that a source knows as `origin`, from what the run remembers or
/// else from the store.
pub fn owning_book(origin: &String, links: &Vec<BookLink>, store: &Store) -> (r: Option<
    (String, Option<String>),
>)
    requires
        book_links_hold(links@, store@.books),
    ensures
        r == owner_of(store@.books, origin@),
{
    let mut k: usize = 0;
    while k < links.len()
        invariant
            k <= links.len(),
            book_links_hold(links@, store@.books),
        decreases links.len() - k,
    {
        if links[k].origin == *origin {
            return Some((links[k].book_id.clone(), clone_text(&links[k].author_id)));
        }
        k += 1;
    }
    match get_book_by_original_id(origin, store) {
        Some(b) => Some((b.id.clone(), clone_text(&b.author_id))),
        None => None,
    }
}

/// The chapter that a source knows as `origin`, from what the run remembers
/// or else from the store.
pub fn owning_chapter(origin: &String, links: &Vec<ChapterLink>, store: &Store) -> (r: Option<
    String,
>)
    requires
        chapter_links_hold(links@, store@.chapters),
    ensures
        r == chapter_of(store@.chapters, origin@),
{
    let mut k: usize = 0;
    while k < links.len()
        invariant
            k <= links.len(),
            chapter_links_hold(links@, store@.chapters),
        decreases links.len() - k,
    {
        if links[k].origin == *origin {
            return Some(links[k].chapter_id.clone());
        }
        k += 1;
    }
    match get_chapter_by_original_id(origin, store) {
        Some(c) => Some(c.id.clone()),
        None => None,
    }
}

} // verus!
