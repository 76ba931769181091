//! The line model of a document.
//!
//! A document is a sequence of characters; a new line begins immediately
//! after each `'\n'`. These spec functions define, for such a sequence,
//! the row that a character offset lies on, where each row starts and
//! ends, and how many rows there are. The lemmas below are what the
//! scanning loops in the document rely on.

use vstd::prelude::*;

verus! {

/// No character in `t[a..b)` is a newline.
pub open spec fn no_nl(t: Seq<char>, a: int, b: int) -> bool {
    forall|k: int| a <= k < b ==> t[k] != '\n'
}

/// Index of the first `'\n'` at or after `from`, or `t.len()` when there
/// is none.
pub open spec fn next_nl(t: Seq<char>, from: int) -> int
    decreases t.len() - from,
{
    if from < 0 || from >= t.len() {
        t.len() as int
    } else if t[from] == '\n' {
        from
    } else {
        next_nl(t, from + 1)
    }
}

/// Row of the character offset `pos`: the number of newlines strictly
/// before it.
pub open spec fn row_of(t: Seq<char>, pos: int) -> int
    decreases pos,
{
    if pos <= 0 {
        0
    } else {
        row_of(t, pos - 1) + if t[pos - 1] == '\n' {
            1int
        } else {
            0int
        }
    }
}

/// Number of rows: one more than the number of newlines, so an empty
/// document still has one row.
pub open spec fn line_count(t: Seq<char>) -> int {
    row_of(t, t.len() as int) + 1
}

/// Offset of the first character of row `row`.
pub open spec fn line_start(t: Seq<char>, row: int) -> int
    decreases row,
{
    if row <= 0 {
        0
    } else {
        next_nl(t, line_start(t, row - 1)) + 1
    }
}

/// When `[from, j)` has no newline and `j` is a newline or the end,
/// `next_nl` finds exactly `j`.
pub proof fn lemma_next_nl_at(t: Seq<char>, from: int, j: int)
    requires
        0 <= from <= j <= t.len(),
        no_nl(t, from, j),
        j == t.len() || t[j] == '\n',
    ensures
        next_nl(t, from) == j,
    decreases j - from,
{
    if from < j {
        lemma_next_nl_at(t, from + 1, j);
    }
}

/// Rows never decrease as the offset grows, and grow by at most one per
/// character.
pub proof fn lemma_row_of_monotone(t: Seq<char>, p1: int, p2: int)
    requires
        p1 <= p2,
    ensures
        row_of(t, p1) <= row_of(t, p2) <= row_of(t, p1) + (p2 - p1),
    decreases p2 - p1,
{
    if p1 < p2 {
        lemma_row_of_monotone(t, p1, p2 - 1);
    }
}

/// The row of an offset is non-negative.
pub proof fn lemma_row_of_nonneg(t: Seq<char>, pos: int)
    ensures
        0 <= row_of(t, pos) <= if pos >= 0 {
            pos
        } else {
            0
        },
    decreases pos,
{
    if pos > 0 {
        lemma_row_of_nonneg(t, pos - 1);
    }
}

/// The characters of row `row` as the document shows them: its content up
/// to and including its `'\n'` terminator (the last row has none).
pub open spec fn line_with_term(t: Seq<char>, row: int) -> Seq<char> {
    let ls = line_start(t, row);
    let ne = next_nl(t, ls);
    if ne < t.len() {
        t.subrange(ls, ne + 1)
    } else {
        t.subrange(ls, ne)
    }
}

/// Offset one past the last character of row `row` that a cursor landing
/// from another row may sit after: the row's newline is excluded, and so
/// is the `'\r'` of a `"\r\n"` pair.
pub open spec fn line_land_end(t: Seq<char>, row: int) -> int {
    let ls = line_start(t, row);
    let ne = next_nl(t, ls);
    if ne < t.len() && ne > ls && t[ne - 1] == '\r' {
        ne - 1
    } else {
        ne
    }
}

/// The row of an offset depends only on the characters before it.
pub proof fn lemma_row_of_prefix(s1: Seq<char>, s2: Seq<char>, n: int)
    requires
        n <= s1.len(),
        n <= s2.len(),
        forall|k: int| 0 <= k < n ==> s1[k] == s2[k],
    ensures
        row_of(s1, n) == row_of(s2, n),
    decreases n,
{
    if n > 0 {
        lemma_row_of_prefix(s1, s2, n - 1);
    }
}

/// Newlines across a concatenation add up.
pub proof fn lemma_row_of_concat(a: Seq<char>, b: Seq<char>, k: int)
    requires
        0 <= k <= b.len(),
    ensures
        row_of(a + b, a.len() + k) == row_of(a, a.len() as int) + row_of(b, k),
    decreases k,
{
    if k == 0 {
        lemma_row_of_prefix(a + b, a, a.len() as int);
    } else {
        lemma_row_of_concat(a, b, k - 1);
        assert((a + b)[a.len() + k - 1] == b[k - 1]);
    }
}

/// Splicing `ins` into `t` adds exactly the newlines of `ins`.
pub proof fn lemma_row_of_insertion(t: Seq<char>, p: int, ins: Seq<char>)
    requires
        0 <= p <= t.len(),
    ensures
        row_of(t.take(p) + ins + t.skip(p), t.len() + ins.len() as int) == row_of(t, t.len() as int)
            + row_of(ins, ins.len() as int),
{
    let a = t.take(p);
    let ab = a + ins;
    let b = t.skip(p);
    lemma_row_of_concat(ab, b, b.len() as int);
    lemma_row_of_concat(a, ins, ins.len() as int);
    lemma_row_of_concat(a, b, b.len() as int);
    assert(a + b =~= t);
    lemma_row_of_prefix(a, t, p);
    assert(ab + b =~= t.take(p) + ins + t.skip(p));
    lemma_row_of_prefix(ab + b, t.take(p) + ins + t.skip(p), (t.len() + ins.len()) as int);
}

/// Crossing a stretch without newlines does not change the row.
pub proof fn lemma_row_of_stable(t: Seq<char>, a: int, b: int)
    requires
        0 <= a <= b,
        no_nl(t, a, b),
    ensures
        row_of(t, a) == row_of(t, b),
    decreases b - a,
{
    if a < b {
        lemma_row_of_stable(t, a, b - 1);
    }
}

} // verus!
