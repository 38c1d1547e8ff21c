//! The sentence that reports what an import added.

use crate::reconcile::ImportSummary;
use vstd::prelude::*;

verus! {

/// How the sentence begins.
pub const SUMMARY_HEAD: &'static str = "Imported successfully ";

/// What stands between the two counts.
pub const SUMMARY_MIDDLE: &'static str = " new books and ";

/// How the sentence ends.
pub const SUMMARY_TAIL: &'static str = " new quotes";

/// The character for a digit.
pub open spec fn digit_char(d: int) -> char {
    if d == 0 {
        '0'
    } else if d == 1 {
        '1'
    } else if d == 2 {
        '2'
    } else if d == 3 {
        '3'
    } else if d == 4 {
        '4'
    } else if d == 5 {
        '5'
    } else if d == 6 {
        '6'
    } else if d == 7 {
        '7'
    } else if d == 8 {
        '8'
    } else {
        '9'
    }
}

/// A number in decimal digits, without leading zeros.
pub open spec fn decimal(n: nat) -> Seq<char>
    decreases n,
{
    if n < 10 {
        seq![digit_char(n as int)]
    } else {
        decimal(n / 10).push(digit_char((n % 10) as int))
    }
}

/// The sentence for a summary.
pub open spec fn summary_text(summary: ImportSummary) -> Seq<char> {
    SUMMARY_HEAD@ + decimal(summary.new_books as nat) + SUMMARY_MIDDLE@ + decimal(
        summary.new_quotes as nat,
    ) + SUMMARY_TAIL@
}

/// The character for a digit.
fn digit(d: usize) -> (c: char)
    requires
        d < 10,
    ensures
        c == digit_char(d as int),
{
    if d == 0 {
        '0'
    } else if d == 1 {
        '1'
    } else if d == 2 {
        '2'
    } else if d == 3 {
        '3'
    } else if d == 4 {
        '4'
    } else if d == 5 {
        '5'
    } else if d == 6 {
        '6'
    } else if d == 7 {
        '7'
    } else if d == 8 {
        '8'
    } else {
        '9'
    }
}

/// Writes a number in decimal digits behind a text.
pub fn push_decimal(text: &mut String, n: usize)
    ensures
        final(text)@ == old(text)@ + decimal(n as nat),
    decreases n,
{
    if n >= 10 {
        push_decimal(text, n / 10);
    }
    text.push(digit(n % 10));
}

/// The sentence that reports the counts of a run.
pub fn summary_message(summary: &ImportSummary) -> (text: String)
    ensures
        text@ == summary_text(*summary),
{
    let mut text = String::from_str(SUMMARY_HEAD);
    push_decimal(&mut text, summary.new_books);
    text.append(SUMMARY_MIDDLE);
    push_decimal(&mut text, summary.new_quotes);
    text.append(SUMMARY_TAIL);
    text
}

} // verus!
