//! Operations on text that the rest of the library builds on.

use vstd::prelude::*;
use vstd::string::StrSliceExecFns;
use vstd::string::StringExecFns;

verus! {

/// The views of a sequence of values.
pub open spec fn views<T: View>(values: Seq<T>) -> Seq<T::V> {
    Seq::new(values.len(), |i: int| values[i]@)
}

/// The texts of a sequence of strings.
pub open spec fn texts(lines: Seq<String>) -> Seq<Seq<char>> {
    Seq::new(lines.len(), |i: int| lines[i]@)
}

/// Whether two string slices hold the same characters.
pub fn same_text(a: &str, b: &str) -> (same: bool)
    ensures
        same == (a@ == b@),
{
    String::from_str(a) == String::from_str(b)
}

/// A line without the carriage return at its end, if it has one.
pub open spec fn without_return(line: Seq<char>) -> Seq<char> {
    if line.len() > 0 && line.last() == '\r' {
        line.drop_last()
    } else {
        line
    }
}

/// The lines of `text` from the line that begins at `start`, where the
/// characters before `at` hold no line feed.
pub open spec fn lines_from(text: Seq<char>, start: int, at: int) -> Seq<Seq<char>>
    decreases text.len() - at,
{
    if at < 0 || at >= text.len() {
        if 0 <= start < text.len() {
            seq![text.subrange(start, text.len() as int)]
        } else {
            Seq::empty()
        }
    } else if text[at] == '\n' {
        seq![without_return(text.subrange(start, at))] + lines_from(text, at + 1, at + 1)
    } else {
        lines_from(text, start, at + 1)
    }
}

/// The lines of a text. A line ends at a line feed; the line feed, and a
/// carriage return just before it, belong to no line. What follows the last
/// line feed is a line as it stands, unless it is empty.
pub open spec fn text_lines(text: Seq<char>) -> Seq<Seq<char>> {
    lines_from(text, 0, 0)
}

/// Splits a text with `str::lines`, which ends a line at every `\n` or
/// `\r\n` and lets the last line end without one, and copies each line.
#[verifier::external_body]
pub(crate) fn split_lines(text: &str) -> (lines: Vec<String>)
    ensures
        texts(lines@) == text_lines(text@),
{
    text.lines().map(|line| line.to_string()).collect()
}

/// Whether `c` is white space: one of the characters that have the Unicode
/// property White_Space.
pub open spec fn is_white_space(c: char) -> bool {
    let n = c as int;
    ||| 0x09 <= n <= 0x0D
    ||| n == 0x20
    ||| n == 0x85
    ||| n == 0xA0
    ||| n == 0x1680
    ||| 0x2000 <= n <= 0x200A
    ||| n == 0x2028
    ||| n == 0x2029
    ||| n == 0x202F
    ||| n == 0x205F
    ||| n == 0x3000
}

/// The place of the first character at or after `from` that is no white
/// space, or the length of `text`.
pub open spec fn first_inner(text: Seq<char>, from: int) -> int
    decreases text.len() - from,
{
    if from < 0 || from >= text.len() {
        text.len() as int
    } else if !is_white_space(text[from]) {
        from
    } else {
        first_inner(text, from + 1)
    }
}

/// The place after the last character before `upto` that is no white space,
/// or 0.
pub open spec fn last_inner(text: Seq<char>, upto: int) -> int
    decreases upto,
{
    if upto <= 0 || upto > text.len() {
        0
    } else if !is_white_space(text[upto - 1]) {
        upto
    } else {
        last_inner(text, upto - 1)
    }
}

/// A text without the white space at its two ends.
pub open spec fn trimmed(text: Seq<char>) -> Seq<char> {
    let first = first_inner(text, 0);
    let last = last_inner(text, text.len() as int);
    if first < last {
        text.subrange(first, last)
    } else {
        Seq::empty()
    }
}

/// Removes leading and trailing white space with `str::trim`.
#[verifier::external_body]
pub(crate) fn trim(text: &str) -> (inner: &str)
    ensures
        inner@ == trimmed(text@),
{
    text.trim()
}

/// Every line without the white space at its two ends.
pub open spec fn trimmed_all(lines: Seq<Seq<char>>) -> Seq<Seq<char>> {
    Seq::new(lines.len(), |i: int| trimmed(lines[i]))
}

/// Trims every line.
pub fn trim_all(lines: &Vec<String>) -> (inner: Vec<String>)
    ensures
        texts(inner@) == trimmed_all(texts(lines@)),
{
    let mut inner: Vec<String> = Vec::new();
    let mut i: usize = 0;
    while i < lines.len()
        invariant
            i <= lines.len(),
            inner@.len() == i,
            forall|j: int| 0 <= j < i ==> (#[trigger] inner@[j])@ == trimmed(lines@[j]@),
        decreases lines.len() - i,
    {
        inner.push(owned(trim(lines[i].as_str())));
        i += 1;
    }
    inner
}

/// An owned copy of `text`.
pub fn owned(text: &str) -> (copy: String)
    ensures
        copy@ == text@,
{
    String::from_str(text)
}

/// Whether `text` begins with `prefix`.
pub fn has_prefix(text: &str, prefix: &str) -> (b: bool)
    ensures
        b == prefix@.is_prefix_of(text@),
{
    let wanted = prefix.unicode_len();
    if text.unicode_len() < wanted {
        return false;
    }
    let mut i: usize = 0;
    while i < wanted
        invariant
            i <= wanted,
            wanted == prefix@.len(),
            wanted <= text@.len(),
            forall|j: int| 0 <= j < i ==> text@[j] == prefix@[j],
        decreases wanted - i,
    {
        if text.get_char(i) != prefix.get_char(i) {
            return false;
        }
        i += 1;
    }
    true
}

} // verus!
