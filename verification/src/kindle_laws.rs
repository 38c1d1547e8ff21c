//! What holds of every import of a clippings file: a second run over the
//! same entries adds no book and no quote, and a block whose second line
//! cannot be read fails the whole file.

use crate::clippings::{
    clipping_of, clippings_of, entries_after, kind_and_date, line_or_empty, lines_from, marks_end,
    title_and_author, ADDED_ON, DELIMITER, Clipping, ClippingView, EntryKind,
};
use crate::datetime::Timestamp;
use crate::kindle::{
    kindle_book_resolved, kindle_entries, kindle_entry_stored, kindle_outcome, kindle_quote_row,
    kindle_step,
};
use crate::reconcile::{author_resolved, book_author_resolved, fresh_run, owner_of, Run};
use crate::store::{
    author_named, book_from, first_from, lemma_found_stays, lemma_missing_then_pushed, new_author,
    new_book, quote_saying, StoreView,
};
use crate::text::{found_from, stands_at, trimmed};
use vstd::prelude::*;

verus! {

/// Whether the store holds what an entry brings: its book, its author, and,
/// for a highlight with a text, a quote of that book with that text.
pub open spec fn entry_settled(store: StoreView, entry: Clipping) -> bool {
    match owner_of(store.books, entry.title@) {
        None => false,
        Some(owner) => {
            &&& entry.author is Some ==> first_from(
                store.authors,
                author_named(entry.author->0@),
                0,
            ) is Some
            &&& entry.entry_type == EntryKind::Highlight && entry.content is Some ==> first_from(
                store.quotes,
                quote_saying((owner.0)@, entry.content->0@),
                0,
            ) is Some
        },
    }
}

/// Whether the store holds what each of the entries brings.
pub open spec fn entries_settled(store: StoreView, entries: Seq<Clipping>) -> bool {
    forall|i: int| 0 <= i < entries.len() ==> entry_settled(store, #[trigger] entries[i])
}

/// What is settled stays settled while the tables grow.
pub proof fn lemma_settled_stays(earlier: StoreView, later: StoreView, entry: Clipping)
    requires
        entry_settled(earlier, entry),
        later.extends(earlier),
    ensures
        entry_settled(later, entry),
        owner_of(later.books, entry.title@) == owner_of(earlier.books, entry.title@),
{
    lemma_found_stays(earlier.books, later.books, book_from(entry.title@));
    let owner = owner_of(earlier.books, entry.title@)->0;
    if entry.author is Some {
        lemma_found_stays(earlier.authors, later.authors, author_named(entry.author->0@));
    }
    if entry.entry_type == EntryKind::Highlight && entry.content is Some {
        lemma_found_stays(
            earlier.quotes,
            later.quotes,
            quote_saying((owner.0)@, entry.content->0@),
        );
    }
}

/// After the book of an entry was resolved, the store knows the book by its
/// title under the identifier that was returned.
pub proof fn lemma_kindle_book_resolved_grows(
    run: Run,
    title: String,
    now: Timestamp,
    ids: Seq<String>,
)
    ensures
        kindle_book_resolved(run, title, now, ids) matches Ok(done) ==> {
            &&& done.0.store.extends(run.store)
            &&& done.0.store.authors == run.store.authors
            &&& done.0.store.quotes == run.store.quotes
            &&& owner_of(done.0.store.books, title@) matches Some(owner) && owner.0 == done.1
        },
{
    if owner_of(run.store.books, title@) is None && run.used < ids.len() {
        let row = new_book(ids[run.used as int], title, None, Some(title), now);
        lemma_missing_then_pushed(run.store.books, row, book_from(title@));
    }
}

/// After the author of an entry was resolved, the store knows the author by
/// name.
pub proof fn lemma_author_resolved_known(run: Run, name: String, now: Timestamp, ids: Seq<String>)
    ensures
        author_resolved(run, name, now, ids) matches Ok(done) ==> first_from(
            done.0.store.authors,
            author_named(name@),
            0,
        ) is Some,
{
    if first_from(run.store.authors, author_named(name@), 0) is None && run.used < ids.len() {
        let row = new_author(ids[run.used as int], name, now);
        lemma_missing_then_pushed(run.store.authors, row, author_named(name@));
    }
}

/// After an entry was looked at, the store holds what it brings.
pub proof fn lemma_kindle_step_settles(run: Run, entry: Clipping, now: Timestamp, ids: Seq<String>)
    ensures
        kindle_step(run, entry, now, ids) matches Ok(next) ==> {
            &&& next.store.extends(run.store)
            &&& entry_settled(next.store, entry)
        },
{
    lemma_kindle_book_resolved_grows(run, entry.title, now, ids);
    match kindle_book_resolved(run, entry.title, now, ids) {
        Err(_) => {},
        Ok((booked, book_id)) => {
            if entry.author is Some {
                lemma_author_resolved_known(booked, entry.author->0, now, ids);
            }
            match book_author_resolved(booked, entry.author, now, ids) {
                Err(_) => {},
                Ok((known, author_id)) => {
                    match kindle_entry_stored(known, entry, book_id, author_id, now, ids) {
                        Err(_) => {},
                        Ok(next) => {
                            if entry.content is Some && known.used < ids.len() {
                                let row = kindle_quote_row(
                                    ids[known.used as int],
                                    entry,
                                    book_id,
                                    author_id,
                                    now,
                                );
                                if entry.entry_type == EntryKind::Highlight && first_from(
                                    known.store.quotes,
                                    quote_saying(book_id@, entry.content->0@),
                                    0,
                                ) is None {
                                    lemma_missing_then_pushed(
                                        known.store.quotes,
                                        row,
                                        quote_saying(book_id@, entry.content->0@),
                                    );
                                }
                            }
                        },
                    }
                },
            }
        },
    }
}

/// After the entries were looked at, the store holds what each brings.
pub proof fn lemma_kindle_entries_settle(
    run: Run,
    entries: Seq<Clipping>,
    now: Timestamp,
    ids: Seq<String>,
)
    ensures
        kindle_entries(run, entries, now, ids) matches Ok(next) ==> {
            &&& next.store.extends(run.store)
            &&& entries_settled(next.store, entries)
        },
    decreases entries.len(),
{
    if entries.len() > 0 {
        lemma_kindle_step_settles(run, entries[0], now, ids);
        match kindle_step(run, entries[0], now, ids) {
            Err(_) => {},
            Ok(mid) => {
                let rest = entries.drop_first();
                lemma_kindle_entries_settle(mid, rest, now, ids);
                match kindle_entries(mid, rest, now, ids) {
                    Err(_) => {},
                    Ok(next) => {
                        lemma_settled_stays(mid.store, next.store, entries[0]);
                        assert forall|i: int| 0 <= i < entries.len() implies entry_settled(
                            next.store,
                            #[trigger] entries[i],
                        ) by {
                            if i > 0 {
                                assert(entries[i] == rest[i - 1]);
                            }
                        }
                    },
                }
            },
        }
    }
}

/// Entries that are settled add no author, no book and no quote.
pub proof fn lemma_settled_entries_keep(
    run: Run,
    entries: Seq<Clipping>,
    now: Timestamp,
    ids: Seq<String>,
)
    requires
        entries_settled(run.store, entries),
    ensures
        kindle_entries(run, entries, now, ids) matches Ok(next) ==> {
            &&& next.store.authors == run.store.authors
            &&& next.store.books == run.store.books
            &&& next.store.chapters == run.store.chapters
            &&& next.store.quotes == run.store.quotes
            &&& next.new_books == run.new_books
            &&& next.new_quotes == run.new_quotes
        },
    decreases entries.len(),
{
    if entries.len() > 0 {
        match kindle_step(run, entries[0], now, ids) {
            Err(_) => {},
            Ok(mid) => {
                let rest = entries.drop_first();
                lemma_settled_entries_keep(mid, rest, now, ids);
            },
        }
    }
}

/// Importing the same entries a second time adds no book and no quote,
/// though the file gives no identifiers: after a run that succeeded, a run
/// over the same entries leaves authors, books, chapters and quotes as the
/// first run left them, and where it succeeds it counts no new book and no
/// new quote. (Notes of the file are added again: nothing tells a note from
/// a copy of it.)
pub proof fn law_kindle_import_adds_nothing_twice(
    store: StoreView,
    entries: Seq<Clipping>,
    first_now: Timestamp,
    first_ids: Seq<String>,
    second_now: Timestamp,
    second_ids: Seq<String>,
)
    requires
        kindle_outcome(store, entries, first_now, first_ids).0 is Ok,
    ensures
        ({
            let once = kindle_outcome(store, entries, first_now, first_ids).1;
            let twice = kindle_outcome(once, entries, second_now, second_ids);
            &&& twice.1.authors == once.authors
            &&& twice.1.books == once.books
            &&& twice.1.chapters == once.chapters
            &&& twice.1.quotes == once.quotes
            &&& twice.0 matches Ok(summary) ==> summary.new_books == 0 && summary.new_quotes == 0
        }),
{
    lemma_kindle_entries_settle(fresh_run(store), entries, first_now, first_ids);
    let once = kindle_entries(fresh_run(store), entries, first_now, first_ids)->Ok_0.store;
    lemma_settled_entries_keep(fresh_run(once), entries, second_now, second_ids);
}

/// A run only adds rows, and a run that fails leaves the store as it was.
pub proof fn law_kindle_import_only_adds(
    store: StoreView,
    entries: Seq<Clipping>,
    now: Timestamp,
    ids: Seq<String>,
)
    ensures
        kindle_outcome(store, entries, now, ids).1.extends(store),
        kindle_outcome(store, entries, now, ids).0 is Err ==> kindle_outcome(
            store,
            entries,
            now,
            ids,
        ).1 == store,
{
    lemma_kindle_entries_settle(fresh_run(store), entries, now, ids);
}

/// Whether the lines of an open block can make no entry, whatever lines
/// still join it: its first or its second line cannot be read.
pub open spec fn block_refused(pending: Seq<Seq<char>>) -> bool {
    &&& pending.len() >= 2
    &&& {
        ||| title_and_author(pending[0]) is None
        ||| kind_and_date(pending[1]) is None
    }
}

/// A file with an open block that is refused is refused as a whole.
pub proof fn lemma_refused_block_fails_file(
    lines: Seq<Seq<char>>,
    pending: Seq<Seq<char>>,
    done: Seq<ClippingView>,
)
    requires
        block_refused(pending),
    ensures
        entries_after(lines, pending, done, false) is Err,
    decreases lines.len(),
{
    if lines.len() > 0 && trimmed(lines[0]) != DELIMITER@ {
        let longer = pending.push(lines[0]);
        lemma_refused_block_fails_file(lines.drop_first(), longer, done);
    }
}

/// A text in which `pattern` stands nowhere is searched in vain.
pub proof fn lemma_absent_is_not_found(s: Seq<char>, pattern: Seq<char>, from: int)
    requires
        forall|at: int| !stands_at(s, pattern, at),
    ensures
        found_from(s, pattern, from) is None,
    decreases s.len() - from,
{
    if 0 <= from < s.len() {
        lemma_absent_is_not_found(s, pattern, from + 1);
    }
}

/// A second line in which `Added on ` stands nowhere names no date.
pub proof fn law_line_without_added_on_names_no_date(line: Seq<char>)
    requires
        forall|at: int| !stands_at(trimmed(line), ADDED_ON@, at),
    ensures
        kind_and_date(line) is None,
{
    let m = trimmed(line);
    let start = crate::clippings::last_line_start(m, m.len() as int);
    lemma_last_line_start_bounds(m, m.len() as int);
    let s = m.skip(start);
    assert forall|at: int| !stands_at(s, ADDED_ON@, at) by {
        if stands_at(s, ADDED_ON@, at) {
            assert(s.subrange(at, at + ADDED_ON@.len()) =~= m.subrange(
                start + at,
                start + at + ADDED_ON@.len(),
            ));
            assert(stands_at(m, ADDED_ON@, start + at));
        }
    }
    match crate::clippings::first_kind(s, 0) {
        None => {},
        Some((k, kind)) => {
            lemma_absent_is_not_found(s, ADDED_ON@, k + crate::clippings::kind_word(kind).len());
        },
    }
}

/// The last line begins inside the text.
pub proof fn lemma_last_line_start_bounds(m: Seq<char>, to: int)
    requires
        0 <= to <= m.len(),
    ensures
        0 <= crate::clippings::last_line_start(m, to) <= to,
    decreases to,
{
    if to > 0 && m[to - 1] != '\n' {
        lemma_last_line_start_bounds(m, to - 1);
    }
}

/// A block whose second line names no kind of entry with a date behind
/// `Added on ` makes no entry.
pub proof fn law_block_without_date_is_refused(lines: Seq<Seq<char>>)
    requires
        kind_and_date(line_or_empty(lines, 1)) is None,
    ensures
        clipping_of(lines) is Err,
{
}

/// A clippings file whose second line cannot be read is refused as a whole:
/// where the first line is no white space, neither of the first two lines is
/// the delimiter, and the second names no kind of entry with a date behind
/// `Added on `, reading the file fails.
pub proof fn law_unreadable_second_line_fails_file(text: Seq<char>)
    requires
        ({
            let lines = lines_from(text, marks_end(text, 0));
            &&& lines.len() >= 2
            &&& trimmed(lines[0]).len() > 0
            &&& trimmed(lines[0]) != DELIMITER@
            &&& trimmed(lines[1]) != DELIMITER@
            &&& kind_and_date(lines[1]) is None
        }),
    ensures
        clippings_of(text) is Err,
{
    let lines = lines_from(text, marks_end(text, 0));
    let none = Seq::<Seq<char>>::empty();
    let rest = lines.drop_first();
    let one = none.push(lines[0]);
    let two = one.push(lines[1]);
    lemma_refused_block_fails_file(rest.drop_first(), two, Seq::empty());
    assert(entries_after(rest, one, Seq::empty(), false) == entries_after(
        rest.drop_first(),
        two,
        Seq::empty(),
        false,
    ));
}

} // verus!
