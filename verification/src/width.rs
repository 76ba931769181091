//! Visual column arithmetic.
//!
//! A character on a terminal row occupies a number of cells: a tab advances
//! to the next tab stop, and any other character occupies its Unicode
//! terminal width (0, 1 or 2 cells), counted as 1 when the width is
//! undefined. The width of a single character comes from the
//! `unicode_width` crate and is modelled by the uninterpreted function
//! [`terminal_width`]; everything built on top of it is verified.

use vstd::prelude::*;

verus! {

/// Number of terminal cells between tab stops.
pub const TAB_WIDTH: usize = 8;

/// The terminal cell width that the `unicode_width` tables assign to a
/// character: `None` for a control character, otherwise its displayed
/// width in columns.
pub uninterp spec fn terminal_width(c: char) -> Option<usize>;

/// Relies on unicode_width::UnicodeWidthChar::width: the displayed width
/// of a character in terminal columns, a function of the character alone.
#[verifier::external_body]
pub fn char_terminal_width(c: char) -> (w: Option<usize>)
    ensures
        w == terminal_width(c),
{
    unicode_width::UnicodeWidthChar::width(c)
}

/// Cells contributed by a character that is not a tab: its terminal width,
/// or 1 when the width is undefined.
pub open spec fn spec_char_width(c: char) -> int {
    match terminal_width(c) {
        Option::Some(w) => w as int,
        Option::None => 1,
    }
}

/// The visual column reached from column `col` after drawing `c`: a tab
/// advances to the next multiple of [`TAB_WIDTH`]; any other character
/// advances by its width.
pub open spec fn spec_advance(col: int, c: char) -> int
    recommends
        col >= 0,
{
    if c == '\t' {
        col + TAB_WIDTH - (col % (TAB_WIDTH as int))
    } else {
        col + spec_char_width(c)
    }
}

/// Visual column reached after the first `n` characters of `line`,
/// starting from column 0.
pub open spec fn spec_visual_col(line: Seq<char>, n: int) -> int
    decreases n,
{
    if n <= 0 {
        0
    } else {
        spec_advance(spec_visual_col(line, n - 1), line[n - 1])
    }
}

/// A column never moves backwards and never becomes negative.
pub proof fn lemma_advance_bounds(col: int, c: char)
    requires
        col >= 0,
    ensures
        col <= spec_advance(col, c) <= col + usize::MAX,
        c == '\t' ==> col < spec_advance(col, c) <= col + TAB_WIDTH,
{
}

/// Visual columns are non-negative and grow at most `usize::MAX` per
/// character.
pub proof fn lemma_visual_col_bounds(line: Seq<char>, n: int)
    requires
        0 <= n,
    ensures
        0 <= spec_visual_col(line, n) <= n * (usize::MAX as int),
    decreases n,
{
    if n > 0 {
        lemma_visual_col_bounds(line, n - 1);
        lemma_advance_bounds(spec_visual_col(line, n - 1), line[n - 1]);
        assert((n - 1) * (usize::MAX as int) + (usize::MAX as int) == n * (usize::MAX as int))
            by (nonlinear_arith);
    }
}

/// On a line of tabs alone every cursor position sits on a tab stop:
/// the visual column after `n` tabs is `TAB_WIDTH * n`.
pub proof fn lemma_tabs_align(line: Seq<char>, n: int)
    requires
        0 <= n <= line.len(),
        forall|k: int| 0 <= k < line.len() ==> line[k] == '\t',
    ensures
        spec_visual_col(line, n) == (TAB_WIDTH as int) * n,
    decreases n,
{
    if n > 0 {
        lemma_tabs_align(line, n - 1);
        assert(((TAB_WIDTH as int) * (n - 1)) % (TAB_WIDTH as int) == 0) by (nonlinear_arith);
        assert((TAB_WIDTH as int) * (n - 1) + (TAB_WIDTH as int) == (TAB_WIDTH as int) * n)
            by (nonlinear_arith);
    }
}

/// The column after `n` characters depends only on those characters.
pub proof fn lemma_visual_col_prefix(s1: Seq<char>, s2: Seq<char>, n: int)
    requires
        n <= s1.len(),
        n <= s2.len(),
        forall|k: int| 0 <= k < n ==> s1[k] == s2[k],
    ensures
        spec_visual_col(s1, n) == spec_visual_col(s2, n),
    decreases n,
{
    if n > 0 {
        lemma_visual_col_prefix(s1, s2, n - 1);
    }
}

/// Visual column after the first `n` characters of `line`, computed
/// exactly. The result type is wide enough that the sum cannot overflow.
pub fn visual_col_of(line: &Vec<char>, n: usize) -> (col: u128)
    requires
        n <= line@.len(),
    ensures
        col == spec_visual_col(line@, n as int),
{
    let mut col: u128 = 0;
    let mut i: usize = 0;
    proof {
        lemma_visual_col_bounds(line@, n as int);
    }
    while i < n
        invariant
            i <= n <= line@.len(),
            col == spec_visual_col(line@, i as int),
            col <= (i as int) * (usize::MAX as int),
        decreases n - i,
    {
        let c = line[i];
        proof {
            lemma_advance_bounds(col as int, c);
            assert((i as int) * (usize::MAX as int) + (usize::MAX as int) == (i + 1) as int * (
            usize::MAX as int)) by (nonlinear_arith);
            assert((i + 1) as int * (usize::MAX as int) < u128::MAX) by (nonlinear_arith)
                requires
                    0 <= i + 1 <= usize::MAX as int,
            ;
        }
        if c == '\t' {
            let pad: u128 = (TAB_WIDTH as u128) - col % (TAB_WIDTH as u128);
            col = col + pad;
        } else {
            let w: usize = match char_terminal_width(c) {
                Option::Some(w) => w,
                Option::None => 1,
            };
            col = col + (w as u128);
        }
        i = i + 1;
    }
    col
}

/// Index of the first character of `line` (from `i` onwards, with the
/// column so far in `col`) that would carry the drawing past the visual
/// column `target`; the line's length when no character does.
pub open spec fn spec_index_at_visual(line: Seq<char>, i: int, col: int, target: int) -> int
    decreases line.len() - i,
{
    if i < 0 || i >= line.len() {
        line.len() as int
    } else if spec_advance(col, line[i]) > target {
        i
    } else {
        spec_index_at_visual(line, i + 1, spec_advance(col, line[i]), target)
    }
}

/// Find where a cursor aiming for visual column `target` lands on `line`:
/// the first character whose cells would pass `target`, or the end of the
/// line when it is visually shorter.
pub fn index_at_visual(line: &Vec<char>, target: u128) -> (idx: usize)
    ensures
        idx == spec_index_at_visual(line@, 0, 0, target as int),
        idx <= line@.len(),
{
    let mut i: usize = 0;
    let mut col: u128 = 0;
    while i < line.len()
        invariant
            i <= line@.len(),
            col == spec_visual_col(line@, i as int),
            col <= (i as int) * (usize::MAX as int),
            spec_index_at_visual(line@, 0, 0, target as int) == spec_index_at_visual(
                line@,
                i as int,
                col as int,
                target as int,
            ),
        decreases line@.len() - i,
    {
        let c = line[i];
        proof {
            lemma_advance_bounds(col as int, c);
            assert((i as int) * (usize::MAX as int) + (usize::MAX as int) == (i + 1) as int * (
            usize::MAX as int)) by (nonlinear_arith);
            assert((i + 1) as int * (usize::MAX as int) < u128::MAX) by (nonlinear_arith)
                requires
                    0 <= i + 1 <= usize::MAX as int,
            ;
        }
        let adv: u128 = if c == '\t' {
            col + ((TAB_WIDTH as u128) - col % (TAB_WIDTH as u128))
        } else {
            let w: usize = match char_terminal_width(c) {
                Option::Some(w) => w,
                Option::None => 1,
            };
            col + (w as u128)
        };
        if adv > target {
            return i;
        }
        col = adv;
        i = i + 1;
    }
    i
}

/// `v` clamped into the `usize` range.
pub open spec fn spec_clamp_usize(v: int) -> int {
    if v > usize::MAX as int {
        usize::MAX as int
    } else {
        v
    }
}

/// Clamp an exactly computed column into `usize` for callers that report
/// columns in machine words.
pub fn clamp_col_to_usize(col: u128) -> (r: usize)
    requires
        col >= 0,
    ensures
        r == spec_clamp_usize(col as int),
{
    if col > usize::MAX as u128 {
        usize::MAX
    } else {
        col as usize
    }
}

} // verus!
