//! Text as sequences of characters: white space, trimming, search.

use vstd::prelude::*;

verus! {

/// `String::push` of std: the text afterwards is the text before with the
/// character at its end.
pub assume_specification[ String::push ](text: &mut String, c: char)
    ensures
        final(text)@ == old(text)@.push(c),
;

/// Whether a character is white space, as Unicode lists it (the property
/// White_Space).
pub open spec fn is_space(c: char) -> bool {
    let u = c as u32;
    ||| 0x09 <= u <= 0x0D
    ||| u == 0x20
    ||| u == 0x85
    ||| u == 0xA0
    ||| u == 0x1680
    ||| 0x2000 <= u <= 0x200A
    ||| u == 0x2028
    ||| u == 0x2029
    ||| u == 0x202F
    ||| u == 0x205F
    ||| u == 0x3000
}

/// A text without the white space that it begins with.
pub open spec fn without_leading(s: Seq<char>) -> Seq<char>
    decreases s.len(),
{
    if s.len() > 0 && is_space(s[0]) {
        without_leading(s.drop_first())
    } else {
        s
    }
}

/// A text without the white space that it ends with.
pub open spec fn without_trailing(s: Seq<char>) -> Seq<char>
    decreases s.len(),
{
    if s.len() > 0 && is_space(s.last()) {
        without_trailing(s.drop_last())
    } else {
        s
    }
}

/// A text without the white space at either end.
pub open spec fn trimmed(s: Seq<char>) -> Seq<char> {
    without_trailing(without_leading(s))
}

/// Whether `pattern` stands in `s` at the position `at`.
pub open spec fn stands_at(s: Seq<char>, pattern: Seq<char>, at: int) -> bool {
    &&& 0 <= at
    &&& at + pattern.len() <= s.len()
    &&& s.subrange(at, at + pattern.len()) == pattern
}

/// The first position at or after `from` at which `pattern` stands in `s`.
pub open spec fn found_from(s: Seq<char>, pattern: Seq<char>, from: int) -> Option<int>
    decreases s.len() - from,
{
    if from < 0 || from > s.len() {
        None
    } else if stands_at(s, pattern, from) {
        Some(from)
    } else if from == s.len() {
        None
    } else {
        found_from(s, pattern, from + 1)
    }
}

/// Whether a character is white space.
pub fn is_space_char(c: char) -> (r: bool)
    ensures
        r == is_space(c),
{
    let u: u32 = c as u32;
    (0x09 <= u && u <= 0x0D) || u == 0x20 || u == 0x85 || u == 0xA0 || u == 0x1680 || (0x2000
        <= u && u <= 0x200A) || u == 0x2028 || u == 0x2029 || u == 0x202F || u == 0x205F || u
        == 0x3000
}

/// Whether two texts are the same, character by character.
pub fn same_text(a: &str, b: &str) -> (r: bool)
    ensures
        r == (a@ == b@),
{
    let left = String::from_str(a);
    let right = String::from_str(b);
    left == right
}

/// The characters of a text, one by one.
pub fn chars_of(text: &str) -> (chars: Vec<char>)
    ensures
        chars@ == text@,
{
    let mut chars: Vec<char> = Vec::new();
    for c in it: text.chars()
        invariant
            it.seq() == text@,
            chars@ == it.seq().take(it.index() as int),
    {
        chars.push(c);
    }
    chars
}

/// The text that the characters from `from` up to `to` make.
pub fn text_between(chars: &Vec<char>, from: usize, to: usize) -> (text: String)
    requires
        from <= to <= chars.len(),
    ensures
        text@ == chars@.subrange(from as int, to as int),
{
    let mut text = String::new();
    let mut i: usize = from;
    while i < to
        invariant
            from <= i <= to <= chars.len(),
            text@ == chars@.subrange(from as int, i as int),
        decreases to - i,
    {
        text.push(chars[i]);
        i += 1;
    }
    text
}

/// The characters from `from` up to `to`.
pub fn chars_between(chars: &Vec<char>, from: usize, to: usize) -> (part: Vec<char>)
    requires
        from <= to <= chars.len(),
    ensures
        part@ == chars@.subrange(from as int, to as int),
{
    let mut part: Vec<char> = Vec::new();
    let mut i: usize = from;
    while i < to
        invariant
            from <= i <= to <= chars.len(),
            part@ == chars@.subrange(from as int, i as int),
        decreases to - i,
    {
        part.push(chars[i]);
        i += 1;
    }
    part
}

/// The characters without the white space at either end.
pub fn trim(chars: &Vec<char>) -> (kept: Vec<char>)
    ensures
        kept@ == trimmed(chars@),
{
    let mut a: usize = 0;
    assert(chars@.skip(0) =~= chars@);
    while a < chars.len() && is_space_char(chars[a])
        invariant
            a <= chars.len(),
            without_leading(chars@) == without_leading(chars@.skip(a as int)),
        decreases chars.len() - a,
    {
        assert(chars@.skip(a as int).drop_first() =~= chars@.skip(a + 1));
        a += 1;
    }
    let ghost body = chars@.skip(a as int);
    let mut b: usize = chars.len();
    while b > a && is_space_char(chars[b - 1])
        invariant
            a <= b <= chars.len(),
            body == chars@.skip(a as int),
            without_trailing(body) == without_trailing(chars@.subrange(a as int, b as int)),
        decreases b,
    {
        assert(chars@.subrange(a as int, b as int).drop_last() =~= chars@.subrange(
            a as int,
            b - 1,
        ));
        b -= 1;
    }
    chars_between(chars, a, b)
}

/// Whether `pattern` stands in `chars` at `at`.
pub fn matches_at(chars: &Vec<char>, pattern: &Vec<char>, at: usize) -> (r: bool)
    ensures
        r == stands_at(chars@, pattern@, at as int),
{
    if pattern.len() > chars.len() || at > chars.len() - pattern.len() {
        return false;
    }
    let mut j: usize = 0;
    while j < pattern.len()
        invariant
            j <= pattern.len(),
            at + pattern.len() <= chars.len(),
            chars@.subrange(at as int, at + j) == pattern@.take(j as int),
        decreases pattern.len() - j,
    {
        if chars[at + j] != pattern[j] {
            return false;
        }
        j += 1;
    }
    assert(pattern@.take(pattern.len() as int) =~= pattern@);
    true
}

/// The first position at or after `from` at which `pattern` stands.
pub fn find_from(chars: &Vec<char>, pattern: &Vec<char>, from: usize) -> (r: Option<usize>)
    ensures
        match r {
            Some(at) => found_from(chars@, pattern@, from as int) == Some(at as int) && stands_at(
                chars@,
                pattern@,
                at as int,
            ),
            None => found_from(chars@, pattern@, from as int) is None,
        },
{
    let mut at: usize = from;
    while at <= chars.len()
        invariant
            from <= at,
            found_from(chars@, pattern@, from as int) == found_from(
                chars@,
                pattern@,
                at as int,
            ),
        decreases chars.len() + 1 - at,
    {
        if matches_at(chars, pattern, at) {
            return Some(at);
        }
        if at == chars.len() {
            return None;
        }
        at += 1;
    }
    None
}

/// The texts of a list of strings.
pub open spec fn texts(lines: Seq<String>) -> Seq<Seq<char>> {
    Seq::new(lines.len(), |i: int| lines[i]@)
}

/// The lines from `from` up to `to`, with a line feed between each two.
pub open spec fn joined(lines: Seq<Seq<char>>, from: int, to: int) -> Seq<char>
    decreases to - from,
{
    if to <= from || from < 0 || to > lines.len() {
        Seq::empty()
    } else if to == from + 1 {
        lines[from]
    } else {
        joined(lines, from, to - 1).push('\n') + lines[to - 1]
    }
}

/// Joins the lines from `from` on with line feeds.
pub fn join_lines(lines: &Vec<String>, from: usize) -> (text: String)
    requires
        from < lines.len(),
    ensures
        text@ == joined(texts(lines@), from as int, lines.len() as int),
{
    let mut text = lines[from].clone();
    let mut i: usize = from + 1;
    while i < lines.len()
        invariant
            from < i <= lines.len(),
            text@ == joined(texts(lines@), from as int, i as int),
        decreases lines.len() - i,
    {
        text.push('\n');
        text.append(lines[i].as_str());
        i += 1;
    }
    text
}

} // verus!
