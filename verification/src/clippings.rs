//! The clippings file of a Kindle: blocks of lines, each with a title line,
//! a line that tells the kind of the entry and when it was added, an empty
//! line and the text of the entry.

use crate::datetime::{normalized, parse_datetime, Timestamp};
use crate::error::{Failure, ImportError};
use crate::text::{
    chars_between, chars_of, find_from, found_from, is_space, is_space_char, join_lines, joined,
    matches_at, stands_at, text_between, texts, trim, trimmed,
};
use vstd::prelude::*;

verus! {

/// What an entry of the clippings file is.
#[derive(Debug, Clone, Copy, PartialEq, Eq, Structural)]
pub enum EntryKind {
    Highlight,
    Note,
    Bookmark,
}

/// One entry of the clippings file. A bookmark has no content.
#[derive(Debug, Clone, PartialEq, Eq)]
pub struct Clipping {
    pub title: String,
    pub author: Option<String>,
    pub entry_type: EntryKind,
    pub added_at: Timestamp,
    pub content: Option<String>,
}

/// A `Clipping` with its texts as sequences of characters.
pub ghost struct ClippingView {
    pub title: Seq<char>,
    pub author: Option<Seq<char>>,
    pub entry_type: EntryKind,
    pub added_at: Timestamp,
    pub content: Option<Seq<char>>,
}

impl View for Clipping {
    type V = ClippingView;

    open spec fn view(&self) -> ClippingView {
        ClippingView {
            title: self.title@,
            author: match self.author {
                Some(a) => Some(a@),
                None => None,
            },
            entry_type: self.entry_type,
            added_at: self.added_at,
            content: match self.content {
                Some(c) => Some(c@),
                None => None,
            },
        }
    }
}

/// The line that ends a block.
pub const DELIMITER: &'static str = "==========";

/// What stands before the date in the second line of a block.
pub const ADDED_ON: &'static str = "Added on ";

/// The word for a highlight in the second line of a block.
pub const WORD_HIGHLIGHT: &'static str = "Highlight";

/// The word for a note in the second line of a block.
pub const WORD_NOTE: &'static str = "Note";

/// The word for a bookmark in the second line of a block.
pub const WORD_BOOKMARK: &'static str = "Bookmark";

/// What introduces a first line that cannot be read.
pub const UNPARSED_LINE: &'static str = "Unable to parse line: ";

/// What introduces a second line that cannot be read.
pub const BAD_METADATA: &'static str = "Invalid metadata format on line: ";

/// What introduces the reason why a date cannot be read.
pub const BAD_DATE: &'static str = "Error parsing date => ";

/// The mark that may stand at the very beginning of a file.
pub const BYTE_ORDER_MARK: char = '\u{feff}';

/// Whether a text holds no line feed.
pub open spec fn one_line(s: Seq<char>) -> bool {
    forall|i: int| 0 <= i < s.len() ==> s[i] != '\n'
}

/// Where the white space that ends just before `p` begins.
pub open spec fn space_run_start(t: Seq<char>, p: int) -> int
    decreases p,
{
    if 0 < p <= t.len() && is_space(t[p - 1]) {
        space_run_start(t, p - 1)
    } else {
        p
    }
}

/// Whether the bracket at `p` opens the author of a title line: the line
/// ends with the closing bracket, and no line feed stands before the white
/// space in front of `p` nor after `p`.
pub open spec fn opens_author(t: Seq<char>, p: int) -> bool {
    &&& 0 <= p
    &&& p + 1 < t.len()
    &&& t[p] == '('
    &&& t.last() == ')'
    &&& one_line(t.subrange(0, space_run_start(t, p)))
    &&& one_line(t.subrange(p + 1, t.len() as int))
}

/// The first position at or after `from` that opens the author.
pub open spec fn first_opening(t: Seq<char>, from: int) -> Option<int>
    decreases t.len() - from,
{
    if from < 0 || from >= t.len() {
        None
    } else if opens_author(t, from) {
        Some(from)
    } else {
        first_opening(t, from + 1)
    }
}

/// The title and the author of a title line. The author stands in brackets
/// at the end of the line and may be missing; a line that breaks where no
/// author follows has neither.
pub open spec fn title_and_author(line: Seq<char>) -> Option<(Seq<char>, Option<Seq<char>>)> {
    let t = trimmed(line);
    match first_opening(t, 0) {
        Some(p) => Some(
            (
                trimmed(t.subrange(0, space_run_start(t, p))),
                Some(trimmed(t.subrange(p + 1, t.len() - 1))),
            ),
        ),
        None => if one_line(t) {
            Some((trimmed(t), None))
        } else {
            None
        },
    }
}

/// The word that stands for a kind of entry.
pub open spec fn kind_word(kind: EntryKind) -> Seq<char> {
    match kind {
        EntryKind::Highlight => WORD_HIGHLIGHT@,
        EntryKind::Note => WORD_NOTE@,
        EntryKind::Bookmark => WORD_BOOKMARK@,
    }
}

/// The kind whose word stands at `at`.
pub open spec fn kind_at(s: Seq<char>, at: int) -> Option<EntryKind> {
    if stands_at(s, kind_word(EntryKind::Highlight), at) {
        Some(EntryKind::Highlight)
    } else if stands_at(s, kind_word(EntryKind::Note), at) {
        Some(EntryKind::Note)
    } else if stands_at(s, kind_word(EntryKind::Bookmark), at) {
        Some(EntryKind::Bookmark)
    } else {
        None
    }
}

/// The first position at or after `from` at which the word of a kind
/// stands, and that kind.
pub open spec fn first_kind(s: Seq<char>, from: int) -> Option<(int, EntryKind)>
    decreases s.len() - from,
{
    if from < 0 || from >= s.len() {
        None
    } else {
        match kind_at(s, from) {
            Some(kind) => Some((from, kind)),
            None => first_kind(s, from + 1),
        }
    }
}

/// Where the last line of a text begins, looking back from `to`.
pub open spec fn last_line_start(m: Seq<char>, to: int) -> int
    decreases to,
{
    if to <= 0 || to > m.len() {
        0
    } else if m[to - 1] == '\n' {
        to
    } else {
        last_line_start(m, to - 1)
    }
}

/// The kind of entry and the text of the date in the second line of a
/// block: the first word of a kind, and what follows the first `Added on `
/// behind that word.
pub open spec fn kind_and_date(line: Seq<char>) -> Option<(EntryKind, Seq<char>)> {
    let m = trimmed(line);
    let s = m.skip(last_line_start(m, m.len() as int));
    match first_kind(s, 0) {
        None => None,
        Some((k, kind)) => match found_from(s, ADDED_ON@, k + kind_word(kind).len()) {
            None => None,
            Some(a) => Some((kind, trimmed(s.skip(a + ADDED_ON@.len())))),
        },
    }
}

/// The line at `i`, or an empty line where the block is shorter.
pub open spec fn line_or_empty(lines: Seq<Seq<char>>, i: int) -> Seq<char> {
    if 0 <= i < lines.len() {
        lines[i]
    } else {
        Seq::empty()
    }
}

/// The text of an entry: the lines behind an empty third line, if there are
/// any.
pub open spec fn content_of(lines: Seq<Seq<char>>) -> Option<Seq<char>> {
    if lines.len() > 3 && lines[2].len() == 0 {
        Some(joined(lines, 3, lines.len() as int))
    } else {
        None
    }
}

/// The entry that the lines of one block make, or why they make none.
pub open spec fn clipping_of(lines: Seq<Seq<char>>) -> Result<ClippingView, Seq<char>> {
    match title_and_author(line_or_empty(lines, 0)) {
        None => Err(UNPARSED_LINE@ + line_or_empty(lines, 0)),
        Some((title, author)) => match kind_and_date(line_or_empty(lines, 1)) {
            None => Err(BAD_METADATA@ + line_or_empty(lines, 1)),
            Some((entry_type, date)) => match normalized(date) {
                Err(reason) => Err(BAD_DATE@ + reason),
                Ok(added_at) => Ok(
                    ClippingView { title, author, entry_type, added_at, content: content_of(lines) },
                ),
            },
        },
    }
}

/// Where the line that begins at `from` ends: at the next line feed or at
/// the end of the text.
pub open spec fn line_end(text: Seq<char>, from: int) -> int
    decreases text.len() - from,
{
    if from < 0 || from >= text.len() || text[from] == '\n' {
        from
    } else {
        line_end(text, from + 1)
    }
}

/// The line that begins at `from`, without the line feed that ends it and
/// without a carriage return in front of that line feed.
pub open spec fn line_at(text: Seq<char>, from: int) -> Seq<char> {
    let end = line_end(text, from);
    if from < end < text.len() && text[end - 1] == '\r' {
        text.subrange(from, end - 1)
    } else {
        text.subrange(from, end)
    }
}

/// A line ends at or behind its beginning, and not behind the text.
pub proof fn lemma_line_end_bounds(text: Seq<char>, from: int)
    requires
        0 <= from <= text.len(),
    ensures
        from <= line_end(text, from) <= text.len(),
    decreases text.len() - from,
{
    if from < text.len() && text[from] != '\n' {
        lemma_line_end_bounds(text, from + 1);
    }
}

/// The lines of a text from `from` on. A text that ends with a line feed has
/// no empty line behind it.
pub open spec fn lines_from(text: Seq<char>, from: int) -> Seq<Seq<char>>
    decreases text.len() + 1 - from,
{
    if from < 0 || from >= text.len() {
        Seq::empty()
    } else {
        proof {
            lemma_line_end_bounds(text, from);
        }
        seq![line_at(text, from)] + lines_from(text, line_end(text, from) + 1)
    }
}

/// How many byte order marks a text begins with, counted from `from`.
pub open spec fn marks_end(text: Seq<char>, from: int) -> int
    decreases text.len() - from,
{
    if 0 <= from < text.len() && text[from] == BYTE_ORDER_MARK {
        marks_end(text, from + 1)
    } else {
        from
    }
}

/// The entries after the lines `lines` were read, where `pending` are the
/// lines of the block that is open and `done` the entries of the blocks
/// before it. A first line of white space is passed over; a delimiter
/// closes the open block; every other line joins it.
pub open spec fn entries_after(
    lines: Seq<Seq<char>>,
    pending: Seq<Seq<char>>,
    done: Seq<ClippingView>,
    first: bool,
) -> Result<Seq<ClippingView>, Seq<char>>
    decreases lines.len(),
{
    if lines.len() == 0 {
        if pending.len() == 0 {
            Ok(done)
        } else {
            match clipping_of(pending) {
                Ok(c) => Ok(done.push(c)),
                Err(m) => Err(m),
            }
        }
    } else if first && trimmed(lines[0]).len() == 0 {
        entries_after(lines.drop_first(), pending, done, false)
    } else if trimmed(lines[0]) == DELIMITER@ {
        if pending.len() == 0 {
            entries_after(lines.drop_first(), pending, done, false)
        } else {
            match clipping_of(pending) {
                Ok(c) => entries_after(lines.drop_first(), Seq::empty(), done.push(c), false),
                Err(m) => Err(m),
            }
        }
    } else {
        entries_after(lines.drop_first(), pending.push(lines[0]), done, false)
    }
}

/// The entries of a clippings file, or why it cannot be read.
pub open spec fn clippings_of(text: Seq<char>) -> Result<Seq<ClippingView>, Seq<char>> {
    entries_after(lines_from(text, marks_end(text, 0)), Seq::empty(), Seq::empty(), true)
}

/// The views of a list of entries.
pub open spec fn views(entries: Seq<Clipping>) -> Seq<ClippingView> {
    Seq::new(entries.len(), |i: int| entries[i]@)
}

/// The position of the first line feed, or the length where there is none,
/// and the position behind the last line feed, or zero.
fn line_feed_bounds(t: &Vec<char>) -> (r: (usize, usize))
    ensures
        r.0 <= t.len(),
        r.1 <= t.len(),
        forall|i: int| 0 <= i < r.0 ==> t@[i] != '\n',
        r.0 < t.len() ==> t@[r.0 as int] == '\n',
        forall|i: int| r.1 <= i < t.len() ==> t@[i] != '\n',
        r.1 > 0 ==> t@[r.1 - 1] == '\n',
{
    let mut first: usize = 0;
    while first < t.len() && t[first] != '\n'
        invariant
            first <= t.len(),
            forall|i: int| 0 <= i < first ==> t@[i] != '\n',
        decreases t.len() - first,
    {
        first += 1;
    }
    let mut behind: usize = t.len();
    while behind > 0 && t[behind - 1] != '\n'
        invariant
            behind <= t.len(),
            forall|i: int| behind <= i < t.len() ==> t@[i] != '\n',
        decreases behind,
    {
        behind -= 1;
    }
    (first, behind)
}

/// The text that characters make.
fn text_of(chars: &Vec<char>) -> (text: String)
    ensures
        text@ == chars@,
{
    text_between(chars, 0, chars.len())
}

/// Splits a title line into the title and the author.
pub fn split_title(line: &str) -> (r: Option<(String, Option<String>)>)
    ensures
        match (title_and_author(line@), r) {
            (Some((title, Some(author))), Some((t, Some(a)))) => t@ == title && a@ == author,
            (Some((title, None)), Some((t, None))) => t@ == title,
            (None, None) => true,
            _ => false,
        },
{
    let t = trim(&chars_of(line));
    let n = t.len();
    let (first_feed, behind_feeds) = line_feed_bounds(&t);
    let closes = n > 0 && t[n - 1] == ')';
    let mut run_start: usize = 0;
    let mut p: usize = 0;
    while p < n
        invariant
            p <= n,
            n == t.len(),
            t@ == trimmed(line@),
            closes == (n > 0 && t@.last() == ')'),
            first_feed <= n,
            behind_feeds <= n,
            forall|i: int| 0 <= i < first_feed ==> t@[i] != '\n',
            first_feed < n ==> t@[first_feed as int] == '\n',
            forall|i: int| behind_feeds <= i < n ==> t@[i] != '\n',
            behind_feeds > 0 ==> t@[behind_feeds - 1] == '\n',
            run_start == space_run_start(t@, p as int),
            run_start <= p,
            first_opening(t@, 0) == first_opening(t@, p as int),
        decreases n - p,
    {
        let ghost before = t@.subrange(0, run_start as int);
        let ghost behind = t@.subrange(p + 1, n as int);
        if closes && t[p] == '(' && p + 1 < n && run_start <= first_feed && behind_feeds <= p + 1 {
            let title = text_of(&trim(&chars_between(&t, 0, run_start)));
            let author = text_of(&trim(&chars_between(&t, p + 1, n - 1)));
            return Some((title, Some(author)));
        }
        proof {
            if run_start > first_feed {
                assert(before[first_feed as int] == '\n');
            }
            if p + 1 < n && behind_feeds > p + 1 {
                assert(behind[behind_feeds - 1 - (p + 1)] == '\n');
            }
        }
        if !is_space_char(t[p]) {
            run_start = p + 1;
        }
        p += 1;
    }
    if first_feed < n {
        None
    } else {
        Some((text_of(&trim(&t)), None))
    }
}

/// The kind whose word stands at `at`.
fn kind_here(s: &Vec<char>, at: usize) -> (r: Option<EntryKind>)
    ensures
        r == kind_at(s@, at as int),
{
    if matches_at(s, &chars_of(WORD_HIGHLIGHT), at) {
        Some(EntryKind::Highlight)
    } else if matches_at(s, &chars_of(WORD_NOTE), at) {
        Some(EntryKind::Note)
    } else if matches_at(s, &chars_of(WORD_BOOKMARK), at) {
        Some(EntryKind::Bookmark)
    } else {
        None
    }
}

/// How many characters the word of a kind has.
fn kind_word_len(kind: EntryKind) -> (n: usize)
    ensures
        n == kind_word(kind).len(),
{
    match kind {
        EntryKind::Highlight => chars_of(WORD_HIGHLIGHT).len(),
        EntryKind::Note => chars_of(WORD_NOTE).len(),
        EntryKind::Bookmark => chars_of(WORD_BOOKMARK).len(),
    }
}

/// The first position at which the word of a kind stands, and that kind.
fn find_kind(s: &Vec<char>) -> (r: Option<(usize, EntryKind)>)
    ensures
        match r {
            Some((k, kind)) => first_kind(s@, 0) == Some((k as int, kind)) && stands_at(
                s@,
                kind_word(kind),
                k as int,
            ),
            None => first_kind(s@, 0) is None,
        },
{
    let mut k: usize = 0;
    while k < s.len()
        invariant
            k <= s.len(),
            first_kind(s@, 0) == first_kind(s@, k as int),
        decreases s.len() - k,
    {
        match kind_here(s, k) {
            Some(kind) => {
                return Some((k, kind));
            },
            None => {},
        }
        k += 1;
    }
    None
}

/// Reads the kind of entry and the text of the date from the second line of
/// a block.
pub fn split_metadata(line: &str) -> (r: Option<(EntryKind, String)>)
    ensures
        match (kind_and_date(line@), r) {
            (Some((kind, date)), Some((k, d))) => k == kind && d@ == date,
            (None, None) => true,
            _ => false,
        },
{
    let m = trim(&chars_of(line));
    let mut start: usize = m.len();
    while start > 0 && m[start - 1] != '\n'
        invariant
            start <= m.len(),
            last_line_start(m@, m.len() as int) == last_line_start(m@, start as int),
        decreases start,
    {
        start -= 1;
    }
    let s = chars_between(&m, start, m.len());
    let (k, kind) = match find_kind(&s) {
        Some(found) => found,
        None => {
            return None;
        },
    };
    let word_len = kind_word_len(kind);
    let pattern = chars_of(ADDED_ON);
    match find_from(&s, &pattern, k + word_len) {
        None => None,
        Some(a) => {
            let date = trim(&chars_between(&s, a + pattern.len(), s.len()));
            Some((kind, text_of(&date)))
        },
    }
}

/// The text of the line at `i`, or of an empty line where the block is
/// shorter.
fn line_text(lines: &Vec<String>, i: usize) -> (line: String)
    ensures
        line@ == line_or_empty(texts(lines@), i as int),
{
    if i < lines.len() {
        lines[i].clone()
    } else {
        String::new()
    }
}

/// Reads one entry from the lines of a block.
pub fn parse_clipping(lines: &Vec<String>) -> (r: Result<Clipping, String>)
    ensures
        match clipping_of(texts(lines@)) {
            Ok(entry) => r is Ok && r->Ok_0@ == entry,
            Err(message) => r is Err && r->Err_0@ == message,
        },
{
    let first = line_text(lines, 0);
    let (title, author) = match split_title(first.as_str()) {
        Some(found) => found,
        None => {
            return Err(String::from_str(UNPARSED_LINE).concat(first.as_str()));
        },
    };
    let second = line_text(lines, 1);
    let (entry_type, date) = match split_metadata(second.as_str()) {
        Some(found) => found,
        None => {
            return Err(String::from_str(BAD_METADATA).concat(second.as_str()));
        },
    };
    let added_at = match parse_datetime(date.as_str()) {
        Ok(t) => t,
        Err(e) => {
            return Err(String::from_str(BAD_DATE).concat(e.reason.as_str()));
        },
    };
    let content = if lines.len() > 3 && lines[2].as_str().is_empty() {
        Some(join_lines(lines, 3))
    } else {
        None
    };
    Ok(Clipping { title, author, entry_type, added_at, content })
}

/// The lines of a text. A line ends with a line feed, which is dropped, as
/// is a carriage return in front of it; the last line needs no line feed.
pub fn lines_of(text: &str) -> (lines: Vec<String>)
    ensures
        texts(lines@) == lines_from(text@, 0),
{
    split_lines(&chars_of(text), 0)
}

/// Splits the characters from `start` on into lines.
fn split_lines(chars: &Vec<char>, start: usize) -> (lines: Vec<String>)
    ensures
        texts(lines@) == lines_from(chars@, start as int),
{
    let mut lines: Vec<String> = Vec::new();
    let mut pos: usize = start;
    while pos < chars.len()
        invariant
            texts(lines@) + lines_from(chars@, pos as int) == lines_from(chars@, start as int),
        decreases chars.len() - pos,
    {
        let mut end: usize = pos;
        while end < chars.len() && chars[end] != '\n'
            invariant
                pos <= end <= chars.len(),
                line_end(chars@, pos as int) == line_end(chars@, end as int),
            decreases chars.len() - end,
        {
            end += 1;
        }
        let stop = if pos < end && end < chars.len() && chars[end - 1] == '\r' {
            end - 1
        } else {
            end
        };
        let line = text_between(chars, pos, stop);
        let ghost before = lines@;
        lines.push(line);
        let next = if end < chars.len() {
            end + 1
        } else {
            end
        };
        assert(lines_from(chars@, end + 1) == lines_from(chars@, next as int));
        pos = next;
    }
    lines
}

/// Whether a line is the delimiter, white space at its ends aside.
fn is_delimiter(trimmed_line: &Vec<char>) -> (r: bool)
    ensures
        r == (trimmed_line@ == DELIMITER@),
{
    let mark = chars_of(DELIMITER);
    if trimmed_line.len() != mark.len() {
        return false;
    }
    let same = matches_at(trimmed_line, &mark, 0);
    assert(trimmed_line@.subrange(0, trimmed_line.len() as int) =~= trimmed_line@);
    same
}

/// Reads the entries of a clippings file from its text. A byte order mark at
/// the beginning is passed over. A block whose first or second line cannot
/// be read fails the whole file.
pub fn parse_clippings(text: &str) -> (r: Result<Vec<Clipping>, ImportError>)
    ensures
        match clippings_of(text@) {
            Ok(entries) => r is Ok && views(r->Ok_0@) == entries,
            Err(message) => r is Err && r->Err_0@ == Failure::InvalidFormat(message),
        },
{
    let chars = chars_of(text);
    let mut start: usize = 0;
    while start < chars.len() && chars[start] == BYTE_ORDER_MARK
        invariant
            start <= chars.len(),
            marks_end(chars@, 0) == marks_end(chars@, start as int),
        decreases chars.len() - start,
    {
        start += 1;
    }
    let lines = split_lines(&chars, start);
    let mut pending: Vec<String> = Vec::new();
    let mut done: Vec<Clipping> = Vec::new();
    let mut i: usize = 0;
    assert(texts(lines@).skip(0) =~= texts(lines@));
    assert(texts(pending@) =~= Seq::<Seq<char>>::empty());
    assert(views(done@) =~= Seq::<ClippingView>::empty());
    while i < lines.len()
        invariant
            i <= lines.len(),
            clippings_of(text@) == entries_after(
                texts(lines@).skip(i as int),
                texts(pending@),
                views(done@),
                i == 0,
            ),
        decreases lines.len() - i,
    {
        let ghost rest = texts(lines@).skip(i as int);
        assert(rest.drop_first() =~= texts(lines@).skip(i + 1));
        let line = trim(&chars_of(lines[i].as_str()));
        if i == 0 && line.len() == 0 {
            // A first line of white space opens no block.
        } else if is_delimiter(&line) {
            if pending.len() > 0 {
                match parse_clipping(&pending) {
                    Ok(entry) => {
                        let ghost before = done@;
                        done.push(entry);
                        assert(views(done@) =~= views(before).push(entry@));
                        pending = Vec::new();
                        assert(texts(pending@) =~= Seq::<Seq<char>>::empty());
                    },
                    Err(message) => {
                        return Err(ImportError::InvalidFormat(message));
                    },
                }
            }
        } else {
            let ghost before = pending@;
            pending.push(lines[i].clone());
            assert(texts(pending@) =~= texts(before).push(lines@[i as int]@));
        }
        i += 1;
    }
    if pending.len() > 0 {
        match parse_clipping(&pending) {
            Ok(entry) => {
                done.push(entry);
            },
            Err(message) => {
                return Err(ImportError::InvalidFormat(message));
            },
        }
    }
    Ok(done)
}

} // verus!
