//! Trusted boundary around the rope that stores the document text.
//!
//! The document keeps its characters in a `ropey::Rope`, which offers
//! insertion, deletion and indexing at character granularity in O(log n)
//! time. Verified code never looks inside the rope; it reasons about the
//! rope's contents through the uninterpreted function [`rope_text`], and
//! every rope operation it performs goes through one of the contracted
//! wrappers below.

use vstd::prelude::*;

verus! {

#[verifier::external_type_specification]
#[verifier::external_body]
pub struct ExRope(ropey::Rope);

/// The sequence of Unicode scalar values held by a rope.
pub uninterp spec fn rope_text(r: ropey::Rope) -> Seq<char>;

/// Relies on ropey::Rope::new: creates an empty rope.
#[verifier::external_body]
pub fn rope_new() -> (r: ropey::Rope)
    ensures
        rope_text(r) == Seq::<char>::empty(),
{
    ropey::Rope::new()
}

/// Relies on ropey::Rope::from_str: builds a rope holding exactly the
/// characters of the given string slice, in order.
#[verifier::external_body]
pub fn rope_from_str(s: &str) -> (r: ropey::Rope)
    ensures
        rope_text(r) == s@,
{
    ropey::Rope::from_str(s)
}

/// Relies on ropey::Rope::len_chars: the number of characters in the rope.
#[verifier::external_body]
pub fn rope_len_chars(r: &ropey::Rope) -> (n: usize)
    ensures
        n == rope_text(*r).len(),
{
    r.len_chars()
}

/// Relies on ropey::Rope::char: the character at the given character index.
/// The callee panics when the index is out of bounds, so that case is
/// excluded here.
#[verifier::external_body]
pub fn rope_char_at(r: &ropey::Rope, i: usize) -> (c: char)
    requires
        i < rope_text(*r).len(),
    ensures
        c == rope_text(*r)[i as int],
{
    r.char(i)
}

/// Relies on ropey::Rope::insert: splices the characters of `s` into the
/// rope at character index `at`. The callee panics when `at` is past the
/// end, so that case is excluded here.
#[verifier::external_body]
pub fn rope_insert(r: &mut ropey::Rope, at: usize, s: &str)
    requires
        at <= rope_text(*old(r)).len(),
    ensures
        rope_text(*final(r)) == rope_text(*old(r)).take(at as int) + s@ + rope_text(*old(r)).skip(
            at as int,
        ),
{
    r.insert(at, s)
}

/// Relies on ropey::Rope::insert_char: inserts one character at character
/// index `at`. The callee panics when `at` is past the end, so that case is
/// excluded here.
#[verifier::external_body]
pub fn rope_insert_char(r: &mut ropey::Rope, at: usize, c: char)
    requires
        at <= rope_text(*old(r)).len(),
    ensures
        rope_text(*final(r)) == rope_text(*old(r)).insert(at as int, c),
{
    r.insert_char(at, c)
}

/// Relies on ropey::Rope::remove: removes the characters in the half-open
/// range `[start, end)`. The callee panics when `start > end` or when `end`
/// is out of bounds, so those cases are excluded here.
#[verifier::external_body]
pub fn rope_remove(r: &mut ropey::Rope, start: usize, end: usize)
    requires
        start <= end <= rope_text(*old(r)).len(),
    ensures
        rope_text(*final(r)) == rope_text(*old(r)).take(start as int) + rope_text(*old(r)).skip(
            end as int,
        ),
{
    r.remove(start..end)
}

/// Relies on ropey::Rope::bytes: a rope stores its text as UTF-8, and the
/// byte iterator yields exactly that encoding, in order.
#[verifier::external_body]
pub fn rope_to_bytes(r: &ropey::Rope) -> (v: Vec<u8>)
    ensures
        v@ == vstd::utf8::encode_utf8(rope_text(*r)),
{
    r.bytes().collect()
}

} // verus!
