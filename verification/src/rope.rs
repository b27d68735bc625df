//! The text buffer: `ropey::Rope`, and what this library relies on of it.
//!
//! The rope is built to recognise the line feed as its only line break, so a
//! line starts at the start of the text and after every line feed, and a line
//! feed belongs to the line that it ends.

use vstd::prelude::*;
use ropey::Rope;
use crate::lines::{line_count, line_feeds_before, line_text};

verus! {

/// `ropey::Rope`, made known so that it can stand in a field and in
/// signatures. Nothing inside it is visible.
#[verifier::external_type_specification]
#[verifier::external_body]
pub struct ExRope(ropey::Rope);

/// The characters that a rope holds, in order.
pub uninterp spec fn rope_text(rope: Rope) -> Seq<char>;

/// `Rope::new`: the rope it makes holds no character.
#[verifier::external_body]
pub(crate) fn rope_new() -> (rope: Rope)
    ensures
        rope_text(rope) == Seq::<char>::empty(),
{
    Rope::new()
}

/// `Rope::len_chars`: the number of characters in the rope.
#[verifier::external_body]
pub(crate) fn rope_len_chars(rope: &Rope) -> (n: usize)
    ensures
        n == rope_text(*rope).len(),
{
    rope.len_chars()
}

/// `Rope::insert_char`: the character goes in at index `idx`, and what stood
/// at or behind `idx` moves one place on. The call panics for an `idx` past
/// the end, which `requires` leaves out, and is taken not to unwind for any
/// other.
#[verifier::external_body]
pub(crate) fn rope_insert_char(rope: &mut Rope, idx: usize, ch: char)
    requires
        idx <= rope_text(*old(rope)).len(),
    ensures
        rope_text(*final(rope)) == rope_text(*old(rope)).insert(idx as int, ch),
    no_unwind
{
    rope.insert_char(idx, ch)
}

/// `Rope::char_to_line`: the index of the line that holds the character at
/// `idx`, which is the number of line breaks before it; `idx` may be the
/// length of the text. The call panics for an `idx` past that.
#[verifier::external_body]
pub(crate) fn rope_char_to_line(rope: &Rope, idx: usize) -> (line: usize)
    requires
        idx <= rope_text(*rope).len(),
    ensures
        line == line_feeds_before(rope_text(*rope), idx as int),
{
    rope.char_to_line(idx)
}

/// `Rope::line`, handed to `String::from`: the text of line `line`, with the
/// line break that ends it. The call panics unless `line` is less than the
/// number of lines.
#[verifier::external_body]
pub(crate) fn rope_line(rope: &Rope, line: usize) -> (text: String)
    requires
        line < line_count(rope_text(*rope)),
    ensures
        text@ == line_text(rope_text(*rope), line as nat),
{
    String::from(rope.line(line))
}

/// `String::from` for a `&Rope`: the whole text.
#[verifier::external_body]
pub(crate) fn rope_to_string(rope: &Rope) -> (text: String)
    ensures
        text@ == rope_text(*rope),
{
    String::from(rope)
}

} // verus!
