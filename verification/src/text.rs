//! Mathematical models of the string operations the search engine relies on,
//! and the standard-library calls that implement them.

use vstd::prelude::*;

verus! {

/// `needle` occurs in `hay` starting at position `at`.
pub open spec fn occurs_at(hay: Seq<char>, needle: Seq<char>, at: int) -> bool {
    &&& 0 <= at
    &&& at + needle.len() <= hay.len()
    &&& hay.subrange(at, at + needle.len()) == needle
}

/// `needle` occurs somewhere in `hay` as a contiguous run of characters.
pub open spec fn is_substring(hay: Seq<char>, needle: Seq<char>) -> bool {
    exists|at: int| #[trigger] occurs_at(hay, needle, at)
}

/// `text` with every non-overlapping occurrence of `from`, found from left to
/// right, replaced by `to`. An empty `from` occurs before every character and
/// once more at the end.
pub open spec fn replace_all(text: Seq<char>, from: Seq<char>, to: Seq<char>) -> Seq<char>
    decreases text.len(),
{
    if text.len() == 0 {
        if from.len() == 0 {
            to
        } else {
            text
        }
    } else if from.len() == 0 {
        to + seq![text[0]] + replace_all(text.subrange(1, text.len() as int), from, to)
    } else if occurs_at(text, from, 0) {
        to + replace_all(text.subrange(from.len() as int, text.len() as int), from, to)
    } else {
        seq![text[0]] + replace_all(text.subrange(1, text.len() as int), from, to)
    }
}

/// Position of the first line feed in `text`, or `text.len()` if there is none.
pub open spec fn first_line_feed(text: Seq<char>) -> int
    decreases text.len(),
{
    if text.len() == 0 || text[0] == '\n' {
        0
    } else {
        1 + first_line_feed(text.subrange(1, text.len() as int))
    }
}

/// `line` without one trailing carriage return, if it has one.
pub open spec fn without_carriage_return(line: Seq<char>) -> Seq<char> {
    if line.len() > 0 && line.last() == '\r' {
        line.drop_last()
    } else {
        line
    }
}

/// The lines of `text`. A line ends at a line feed, or at a carriage return
/// directly followed by a line feed; the terminator is not part of the line.
/// A final terminator does not open another, empty line, and a carriage
/// return that no line feed follows is ordinary text.
pub open spec fn split_lines(text: Seq<char>) -> Seq<Seq<char>>
    decreases text.len(),
{
    if text.len() == 0 {
        Seq::empty()
    } else {
        let cut = first_line_feed(text);
        if 0 <= cut < text.len() {
            seq![without_carriage_return(text.subrange(0, cut))] + split_lines(
                text.subrange(cut + 1, text.len() as int),
            )
        } else {
            seq![text]
        }
    }
}

/// The character that stands for a single decimal digit.
pub open spec fn digit_char(digit: nat) -> char {
    seq!['0', '1', '2', '3', '4', '5', '6', '7', '8', '9'][digit as int]
}

/// The decimal numeral of `n`, most significant digit first, without
/// leading zeros.
pub open spec fn decimal_digits(n: nat) -> Seq<char>
    decreases n,
{
    if n < 10 {
        seq![digit_char(n)]
    } else {
        decimal_digits(n / 10).push(digit_char(n % 10))
    }
}

/// The lowercase form of `text` as `str::to_lowercase` computes it: a fixed
/// function of the characters alone, defined by the Unicode case tables.
pub uninterp spec fn lowercase_of(text: Seq<char>) -> Seq<char>;

/// The character sequences of a list of strings.
pub open spec fn texts(strings: Seq<String>) -> Seq<Seq<char>> {
    strings.map_values(|s: String| s@)
}

/// Calls `str::contains` with a string pattern. Trusted: the result says
/// whether the pattern occurs in the text as a contiguous run of characters.
#[verifier::external_body]
pub(crate) fn contains(hay: &str, needle: &str) -> (found: bool)
    ensures
        found == is_substring(hay@, needle@),
{
    hay.contains(needle)
}

/// Calls `str::to_lowercase`. Trusted: the result is the lowercase form of
/// the text, which this library names and does not define.
#[verifier::external_body]
pub(crate) fn to_lowercase(text: &str) -> (lowered: String)
    ensures
        lowered@ == lowercase_of(text@),
{
    text.to_lowercase()
}

/// Calls `str::replace` with a string pattern. Trusted: every match of the
/// pattern, taken from left to right without overlap, is replaced.
#[verifier::external_body]
pub(crate) fn replace(text: &str, from: &str, to: &str) -> (out: String)
    ensures
        out@ == replace_all(text@, from@, to@),
{
    text.replace(from, to)
}

/// Calls `str::lines` and collects what it yields. Trusted: the lines come
/// in order, split at `\n` and `\r\n`, without their terminators.
#[verifier::external_body]
pub(crate) fn lines(text: &str) -> (out: Vec<String>)
    ensures
        texts(out@) == split_lines(text@),
{
    text.lines().map(String::from).collect()
}

/// Calls `to_string` on an unsigned integer. Trusted: the result is its
/// decimal numeral.
#[verifier::external_body]
pub(crate) fn decimal(n: usize) -> (out: String)
    ensures
        out@ == decimal_digits(n as nat),
{
    n.to_string()
}

} // verus!
