//! The text buffer: a `ropey::Rope`, seen by the library as the sequence of
//! characters it holds. Line structure (which characters break lines) is
//! ropey's own business, so it is named rather than spelled out.

use vstd::prelude::*;

use ropey::Rope;

verus! {

#[verifier::external_type_specification]
#[verifier::external_body]
pub struct ExRope(Rope);

/// The characters a rope holds, in order.
pub uninterp spec fn rope_chars(r: Rope) -> Seq<char>;

/// The number of lines ropey counts in a text (line breaks plus one).
pub uninterp spec fn line_count_of(text: Seq<char>) -> nat;

/// The character index at which ropey says a line starts.
pub uninterp spec fn line_start_of(text: Seq<char>, line: nat) -> nat;

/// The line ropey places a character index on.
pub uninterp spec fn line_of_char(text: Seq<char>, idx: nat) -> nat;

/// The number of characters ropey gives a line, its line break included.
pub uninterp spec fn line_len_of(text: Seq<char>, line: nat) -> nat;

/// `text` with `s` inserted at `idx`.
pub open spec fn inserted(text: Seq<char>, idx: int, s: Seq<char>) -> Seq<char> {
    text.take(idx) + s + text.skip(idx)
}

/// `text` without the characters in `[start, end)`.
pub open spec fn removed(text: Seq<char>, start: int, end: int) -> Seq<char> {
    text.take(start) + text.skip(end)
}

/// Relies on `Rope::from_str`: the rope holds exactly the given characters.
#[verifier::external_body]
pub(crate) fn rope_from_str(s: &str) -> (r: Rope)
    ensures
        rope_chars(r) == s@,
{
    Rope::from_str(s)
}

/// Relies on `Rope::len_chars`: the number of characters held.
#[verifier::external_body]
pub(crate) fn rope_len_chars(r: &Rope) -> (n: usize)
    ensures
        n == rope_chars(*r).len(),
{
    r.len_chars()
}

/// Relies on `Rope::len_lines`: the count of line breaks plus one.
#[verifier::external_body]
pub(crate) fn rope_len_lines(r: &Rope) -> (n: usize)
    ensures
        n == line_count_of(rope_chars(*r)),
        n >= 1,
{
    r.len_lines()
}

/// Relies on `Rope::line_to_char`, which panics past one-past-the-last line
/// and returns at most the length of the text.
#[verifier::external_body]
pub(crate) fn rope_line_to_char(r: &Rope, line: usize) -> (n: usize)
    requires
        line <= line_count_of(rope_chars(*r)),
    ensures
        n == line_start_of(rope_chars(*r), line as nat),
        n <= rope_chars(*r).len(),
{
    r.line_to_char(line)
}

/// Relies on `Rope::char_to_line`, which panics past one-past-the-end; the
/// line returned is an existing one and starts at or before the index.
#[verifier::external_body]
pub(crate) fn rope_char_to_line(r: &Rope, idx: usize) -> (n: usize)
    requires
        idx <= rope_chars(*r).len(),
    ensures
        n == line_of_char(rope_chars(*r), idx as nat),
        n < line_count_of(rope_chars(*r)),
        line_start_of(rope_chars(*r), n as nat) <= idx,
{
    r.char_to_line(idx)
}

/// Relies on `Rope::line` and `RopeSlice::len_chars`: the character count of
/// one line; `line` panics on a line that does not exist.
#[verifier::external_body]
pub(crate) fn rope_line_len(r: &Rope, line: usize) -> (n: usize)
    requires
        line < line_count_of(rope_chars(*r)),
    ensures
        n == line_len_of(rope_chars(*r), line as nat),
{
    r.line(line).len_chars()
}

/// Relies on `Rope::insert`, which panics past the end of the text.
#[verifier::external_body]
pub(crate) fn rope_insert(r: &mut Rope, idx: usize, s: &str)
    requires
        idx <= rope_chars(*old(r)).len(),
    ensures
        rope_chars(*final(r)) == inserted(rope_chars(*old(r)), idx as int, s@),
{
    r.insert(idx, s)
}

/// Relies on `Rope::remove`, which panics on a reversed range or one that
/// runs past the end of the text.
#[verifier::external_body]
pub(crate) fn rope_remove(r: &mut Rope, start: usize, end: usize)
    requires
        start <= end <= rope_chars(*old(r)).len(),
    ensures
        rope_chars(*final(r)) == removed(rope_chars(*old(r)), start as int, end as int),
{
    r.remove(start..end)
}

/// Relies on `Rope::get_char`: the character at an index, if there is one.
#[verifier::external_body]
pub(crate) fn rope_get_char(r: &Rope, idx: usize) -> (c: Option<char>)
    ensures
        idx < rope_chars(*r).len() ==> c == Some(rope_chars(*r)[idx as int]),
        idx >= rope_chars(*r).len() ==> c is None,
{
    r.get_char(idx)
}

} // verus!
