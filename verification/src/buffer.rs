//! The document: a rope of characters, one cursor, a line-ending policy
//! and a clean/modified/saving state.
//!
//! Every operation keeps the cursor inside `[0, char_count]`. Contracts
//! speak about the document through [`Buffer::text_view`] (the character
//! sequence), the cursor offset, and the line model of
//! [`crate::line_index`].

use vstd::prelude::*;

use crate::line_index::{line_count, line_land_end, line_start, line_with_term, next_nl, no_nl,
    row_of};
use crate::line_index::{lemma_next_nl_at, lemma_row_of_monotone};
use crate::width::{spec_clamp_usize, spec_index_at_visual, spec_visual_col};
use crate::text_store::{
    rope_char_at, rope_from_str, rope_insert, rope_insert_char, rope_len_chars, rope_new,
    rope_remove, rope_text, rope_to_bytes,
};
use crate::textfmt::{bytes_to_str, chars_to_string, push_dec, spec_dec, str_to_chars};

verus! {

/// Whether the document matches what is on disk.
#[derive(Debug, Clone, Copy, PartialEq, Eq, Structural)]
pub enum Status {
    Modified,
    Clean,
    Saving,
}

/// The byte sequence this document uses for a newline it inserts.
#[derive(Debug, Clone, Copy, PartialEq, Eq, Structural)]
pub enum LineEnding {
    LF,
    CRLF,
}

impl LineEnding {
    /// The characters of this line ending.
    pub open spec fn spec_str(self) -> Seq<char> {
        match self {
            LineEnding::LF => seq!['\n'],
            LineEnding::CRLF => seq!['\r', '\n'],
        }
    }

    /// The line ending as a string slice.
    pub fn as_str(&self) -> (s: &'static str)
        ensures
            s@ == self.spec_str(),
    {
        proof {
            reveal_strlit("\n");
            reveal_strlit("\r\n");
        }
        match self {
            LineEnding::LF => "\n",
            LineEnding::CRLF => "\r\n",
        }
    }

    /// Number of characters in this line ending.
    pub fn len(&self) -> (n: usize)
        ensures
            n == self.spec_str().len(),
    {
        match self {
            LineEnding::LF => 1,
            LineEnding::CRLF => 2,
        }
    }
}

/// What went wrong in a document operation.
#[derive(Debug, Clone, Copy, PartialEq, Eq, Structural)]
pub enum BufferErrorKind {
    /// The document has no file path to save to.
    NoPath,
    /// The file exists but may not be read or written.
    PermissionDenied,
    /// Any other I/O failure, including text that is not UTF-8.
    IoFailure,
}

/// A structured error with a short human-readable message.
#[derive(Debug)]
pub struct BufferError {
    pub kind: BufferErrorKind,
    pub message: String,
}

impl BufferError {
    pub fn no_path() -> (e: BufferError)
        ensures
            e.kind == BufferErrorKind::NoPath,
            e.message@ == "No file associated with buffer"@,
    {
        BufferError {
            kind: BufferErrorKind::NoPath,
            message: <String as vstd::string::StringExecFns>::from_str("No file associated with buffer"),
        }
    }

    pub fn permission_denied_read() -> (e: BufferError)
        ensures
            e.kind == BufferErrorKind::PermissionDenied,
            e.message@ == "Can't read file"@,
    {
        BufferError {
            kind: BufferErrorKind::PermissionDenied,
            message: <String as vstd::string::StringExecFns>::from_str("Can't read file"),
        }
    }

    pub fn permission_denied_write() -> (e: BufferError)
        ensures
            e.kind == BufferErrorKind::PermissionDenied,
            e.message@ == "Can't write to file"@,
    {
        BufferError {
            kind: BufferErrorKind::PermissionDenied,
            message: <String as vstd::string::StringExecFns>::from_str("Can't write to file"),
        }
    }

    pub fn io_failure() -> (e: BufferError)
        ensures
            e.kind == BufferErrorKind::IoFailure,
            e.message@ == "I/O error occurred"@,
    {
        BufferError {
            kind: BufferErrorKind::IoFailure,
            message: <String as vstd::string::StringExecFns>::from_str("I/O error occurred"),
        }
    }
}

/// The characters of an optional path.
pub open spec fn path_view(p: Option<String>) -> Option<Seq<char>> {
    match p {
        Option::Some(s) => Option::Some(s@),
        Option::None => Option::None,
    }
}

/// A text document being edited.
#[derive(Debug)]
pub struct Buffer {
    text: ropey::Rope,
    file_path: Option<String>,
    status: Status,
    cursor_pos: usize,
    line_ending: LineEnding,
}

impl Buffer {
    /// The characters of the document.
    pub closed spec fn text_view(self) -> Seq<char> {
        rope_text(self.text)
    }

    /// The cursor as a character offset.
    pub closed spec fn spec_cursor(self) -> int {
        self.cursor_pos as int
    }

    pub closed spec fn spec_status(self) -> Status {
        self.status
    }

    pub closed spec fn spec_path(self) -> Option<Seq<char>> {
        path_view(self.file_path)
    }

    pub closed spec fn spec_line_ending(self) -> LineEnding {
        self.line_ending
    }

    /// The cursor always sits inside the document.
    pub open spec fn wf(self) -> bool {
        0 <= self.spec_cursor() <= self.text_view().len()
    }

    /// Text, path, status and line ending all unchanged (only the cursor
    /// may differ).
    pub open spec fn same_doc(self, other: Buffer) -> bool {
        &&& self.text_view() == other.text_view()
        &&& self.spec_path() == other.spec_path()
        &&& self.spec_status() == other.spec_status()
        &&& self.spec_line_ending() == other.spec_line_ending()
    }

    /// A new empty document.
    pub fn new(path: Option<String>, line_ending: LineEnding) -> (b: Buffer)
        ensures
            b.wf(),
            b.text_view() == Seq::<char>::empty(),
            b.spec_cursor() == 0,
            b.spec_status() == Status::Clean,
            b.spec_path() == path_view(path),
            b.spec_line_ending() == line_ending,
    {
        Buffer {
            text: rope_new(),
            file_path: path,
            status: Status::Clean,
            cursor_pos: 0,
            line_ending,
        }
    }

    /// A document decoded from the bytes of a file. Fails exactly when the
    /// bytes are not well-formed UTF-8.
    pub fn from_bytes(bytes: &[u8], path: Option<String>, line_ending: LineEnding) -> (r: Result<
        Buffer,
        BufferError,
    >)
        ensures
            r is Ok <==> vstd::utf8::valid_utf8(bytes@),
            r matches Ok(b) ==> {
                &&& b.wf()
                &&& b.text_view() == vstd::utf8::decode_utf8(bytes@)
                &&& b.spec_cursor() == 0
                &&& b.spec_status() == Status::Clean
                &&& b.spec_path() == path_view(path)
                &&& b.spec_line_ending() == line_ending
            },
            r matches Err(e) ==> e.kind == BufferErrorKind::IoFailure,
    {
        match bytes_to_str(bytes) {
            Option::Some(s) => Result::Ok(
                Buffer {
                    text: rope_from_str(s),
                    file_path: path,
                    status: Status::Clean,
                    cursor_pos: 0,
                    line_ending,
                },
            ),
            Option::None => Result::Err(BufferError::io_failure()),
        }
    }

    /// Number of characters in the document.
    pub fn char_count(&self) -> (n: usize)
        ensures
            n == self.text_view().len(),
    {
        rope_len_chars(&self.text)
    }

    /// Row of the cursor and offset of that row's first character.
    fn locate_cursor(&self) -> (r: (usize, usize))
        requires
            self.wf(),
        ensures
            r.0 == row_of(self.text_view(), self.spec_cursor()),
            r.1 == line_start(self.text_view(), r.0 as int),
            r.1 <= self.spec_cursor(),
            no_nl(self.text_view(), r.1 as int, self.spec_cursor()),
    {
        let ghost t = self.text_view();
        let mut row: usize = 0;
        let mut ls: usize = 0;
        let mut i: usize = 0;
        while i < self.cursor_pos
            invariant
                self.wf(),
                t == self.text_view(),
                i <= self.cursor_pos,
                row as int == row_of(t, i as int),
                row <= i,
                ls == line_start(t, row as int),
                ls <= i,
                no_nl(t, ls as int, i as int),
            decreases self.cursor_pos - i,
        {
            let c = rope_char_at(&self.text, i);
            if c == '\n' {
                proof {
                    lemma_next_nl_at(t, ls as int, i as int);
                }
                row = row + 1;
                ls = i + 1;
            }
            i = i + 1;
        }
        (row, ls)
    }

    /// Row of the cursor, counting from 0.
    pub fn cursor_row(&self) -> (row: usize)
        requires
            self.wf(),
        ensures
            row == row_of(self.text_view(), self.spec_cursor()),
    {
        self.locate_cursor().0
    }

    /// Character offset of the cursor within its row.
    pub fn cursor_column(&self) -> (col: usize)
        requires
            self.wf(),
        ensures
            col == self.spec_cursor() - line_start(
                self.text_view(),
                row_of(self.text_view(), self.spec_cursor()),
            ),
            col <= self.spec_cursor(),
    {
        let (row, ls) = self.locate_cursor();
        self.cursor_pos - ls
    }

    /// Cursor position as (column, row) character coordinates.
    pub fn get_cursor_xy(&self) -> (r: (usize, usize))
        requires
            self.wf(),
        ensures
            r.1 == row_of(self.text_view(), self.spec_cursor()),
            r.0 == self.spec_cursor() - line_start(self.text_view(), r.1 as int),
    {
        let (row, ls) = self.locate_cursor();
        (self.cursor_pos - ls, row)
    }

    /// Number of rows. One more than the number of newlines; an empty
    /// document has one row.
    pub fn line_count(&self) -> (n: usize)
        requires
            self.text_view().len() < usize::MAX,
        ensures
            n == line_count(self.text_view()),
    {
        let ghost t = self.text_view();
        let len = rope_len_chars(&self.text);
        let mut count: usize = 0;
        let mut i: usize = 0;
        while i < len
            invariant
                t == self.text_view(),
                len == t.len(),
                i <= len,
                count as int == row_of(t, i as int),
                count <= i,
            decreases len - i,
        {
            if rope_char_at(&self.text, i) == '\n' {
                count = count + 1;
            }
            i = i + 1;
        }
        count + 1
    }

    /// The document's characters, in order.
    pub fn chars(&self) -> (v: Vec<char>)
        ensures
            v@ == self.text_view(),
    {
        let ghost t = self.text_view();
        let len = rope_len_chars(&self.text);
        let mut v: Vec<char> = Vec::new();
        let mut i: usize = 0;
        while i < len
            invariant
                t == self.text_view(),
                len == t.len(),
                i <= len,
                v@ == t.take(i as int),
            decreases len - i,
        {
            v.push(rope_char_at(&self.text, i));
            proof {
                assert(v@ =~= t.take(i + 1));
            }
            i = i + 1;
        }
        proof {
            assert(t.take(len as int) =~= t);
        }
        v
    }

    /// The document's bytes: the UTF-8 encoding of its characters.
    pub fn bytes(&self) -> (v: Vec<u8>)
        ensures
            v@ == vstd::utf8::encode_utf8(self.text_view()),
    {
        rope_to_bytes(&self.text)
    }

    /// The path this document is bound to, if any.
    pub fn file_path(&self) -> (p: Option<&String>)
        ensures
            p is Some <==> self.spec_path() is Some,
            p matches Some(s) ==> self.spec_path() == Option::Some(s@),
    {
        self.file_path.as_ref()
    }

    /// Whether the document is clean, modified, or being saved.
    pub fn status(&self) -> (s: &Status)
        ensures
            *s == self.spec_status(),
    {
        &self.status
    }

    /// The line ending the document inserts for a newline.
    pub fn line_ending(&self) -> (le: LineEnding)
        ensures
            le == self.spec_line_ending(),
    {
        self.line_ending
    }

    /// The characters in `[lo, hi)`.
    fn collect_range(&self, lo: usize, hi: usize) -> (v: Vec<char>)
        requires
            lo <= hi <= self.text_view().len(),
        ensures
            v@ == self.text_view().subrange(lo as int, hi as int),
    {
        let ghost t = self.text_view();
        let mut v: Vec<char> = Vec::new();
        let mut i: usize = lo;
        while i < hi
            invariant
                t == self.text_view(),
                lo <= i <= hi <= t.len(),
                v@ == t.subrange(lo as int, i as int),
            decreases hi - i,
        {
            v.push(rope_char_at(&self.text, i));
            proof {
                assert(v@ =~= t.subrange(lo as int, i + 1));
            }
            i = i + 1;
        }
        v
    }

    /// Total number of newline characters.
    fn newline_total(&self) -> (n: usize)
        ensures
            n == row_of(self.text_view(), self.text_view().len() as int),
            n <= self.text_view().len(),
    {
        let ghost t = self.text_view();
        let len = rope_len_chars(&self.text);
        let mut count: usize = 0;
        let mut i: usize = 0;
        while i < len
            invariant
                t == self.text_view(),
                len == t.len(),
                i <= len,
                count as int == row_of(t, i as int),
                count <= i,
            decreases len - i,
        {
            if rope_char_at(&self.text, i) == '\n' {
                count = count + 1;
            }
            i = i + 1;
        }
        count
    }

    /// Offset of the first character of row `row`.
    fn line_start_of(&self, row: usize) -> (ls: usize)
        requires
            row as int <= row_of(self.text_view(), self.text_view().len() as int),
        ensures
            ls == line_start(self.text_view(), row as int),
            ls <= self.text_view().len(),
            row_of(self.text_view(), ls as int) == row,
    {
        let ghost t = self.text_view();
        let len = rope_len_chars(&self.text);
        let mut cnt: usize = 0;
        let mut ls: usize = 0;
        let mut i: usize = 0;
        while cnt < row
            invariant
                t == self.text_view(),
                len == t.len(),
                cnt <= row,
                row as int <= row_of(t, len as int),
                i <= len,
                cnt as int == row_of(t, i as int),
                cnt <= i,
                ls == line_start(t, cnt as int),
                ls <= i,
                no_nl(t, ls as int, i as int),
            decreases len - i,
        {
            proof {
                if i == len {
                    assert(cnt as int == row_of(t, len as int));
                }
            }
            let c = rope_char_at(&self.text, i);
            if c == '\n' {
                proof {
                    lemma_next_nl_at(t, ls as int, i as int);
                }
                cnt = cnt + 1;
                ls = i + 1;
            }
            i = i + 1;
        }
        proof {
            crate::line_index::lemma_row_of_stable(t, ls as int, i as int);
        }
        ls
    }

    /// Offset of the first newline at or after `from`, or the end.
    fn line_end_of(&self, from: usize) -> (ne: usize)
        requires
            from <= self.text_view().len(),
        ensures
            ne as int == next_nl(self.text_view(), from as int),
            from <= ne <= self.text_view().len(),
    {
        let ghost t = self.text_view();
        let len = rope_len_chars(&self.text);
        let mut j: usize = from;
        while j < len && rope_char_at(&self.text, j) != '\n'
            invariant
                t == self.text_view(),
                len == t.len(),
                from <= j <= len,
                no_nl(t, from as int, j as int),
            decreases len - j,
        {
            j = j + 1;
        }
        proof {
            lemma_next_nl_at(t, from as int, j as int);
        }
        j
    }

    /// Row `row` as shown, terminator included.
    pub fn get_line(&self, row: usize) -> (v: Vec<char>)
        requires
            (row as int) < line_count(self.text_view()),
        ensures
            v@ == line_with_term(self.text_view(), row as int),
    {
        let ghost t = self.text_view();
        let len = rope_len_chars(&self.text);
        let ls = self.line_start_of(row);
        let ne = self.line_end_of(ls);
        let hi = if ne < len {
            ne + 1
        } else {
            ne
        };
        self.collect_range(ls, hi)
    }

    /// All rows, in order, terminators included.
    pub fn lines(&self) -> (r: Vec<Vec<char>>)
        requires
            self.text_view().len() < usize::MAX,
        ensures
            r@.len() == line_count(self.text_view()),
            forall|i: int|
                0 <= i < r@.len() ==> r@[i]@ == line_with_term(self.text_view(), i),
    {
        let ghost t = self.text_view();
        let n = self.line_count();
        let mut r: Vec<Vec<char>> = Vec::new();
        let mut row: usize = 0;
        while row < n
            invariant
                t == self.text_view(),
                n == line_count(t),
                row <= n,
                r@.len() == row,
                forall|i: int| 0 <= i < row ==> r@[i]@ == line_with_term(t, i),
            decreases n - row,
        {
            r.push(self.get_line(row));
            row = row + 1;
        }
        r
    }

    /// Visual width of the first `x` characters of row `y` (all of the
    /// row when it has fewer than `x`), clamped into a machine word.
    pub fn get_char_column_width(&self, x: usize, y: usize) -> (w: usize)
        requires
            (y as int) < line_count(self.text_view()),
        ensures
            w == spec_clamp_usize(spec_col_width_at(self.text_view(), x as int, y as int)),
    {
        let ghost t = self.text_view();
        let len = rope_len_chars(&self.text);
        let ls = self.line_start_of(y);
        let ne = self.line_end_of(ls);
        let hi = if ne < len {
            ne + 1
        } else {
            ne
        };
        let line_len = hi - ls;
        let n = if x <= line_len {
            x
        } else {
            line_len
        };
        let v = self.collect_range(ls, ls + n);
        proof {
            crate::width::lemma_visual_col_prefix(
                v@,
                line_with_term(t, y as int),
                n as int,
            );
        }
        let col = crate::width::visual_col_of(&v, n);
        crate::width::clamp_col_to_usize(col)
    }

    /// Visual column of the cursor on its row, clamped into a machine
    /// word.
    pub fn get_visual_cursor_x(&self) -> (w: usize)
        requires
            self.wf(),
        ensures
            w == spec_clamp_usize(spec_visual_cursor_col(self.text_view(), self.spec_cursor())),
    {
        let (_row, ls) = self.locate_cursor();
        let v = self.collect_range(ls, self.cursor_pos);
        let col = crate::width::visual_col_of(&v, v.len());
        crate::width::clamp_col_to_usize(col)
    }
    /// Move the cursor one character left; a no-op at offset 0.
    pub fn move_cursor_left(&mut self)
        requires
            old(self).wf(),
        ensures
            final(self).wf(),
            old(self).same_doc(*final(self)),
            final(self).spec_cursor() == if old(self).spec_cursor() == 0 {
                0int
            } else {
                old(self).spec_cursor() - 1
            },
    {
        if self.cursor_pos > 0 {
            self.cursor_pos = self.cursor_pos - 1;
        }
    }

    /// Move the cursor one character right; a no-op at the end.
    pub fn move_cursor_right(&mut self)
        requires
            old(self).wf(),
        ensures
            final(self).wf(),
            old(self).same_doc(*final(self)),
            final(self).spec_cursor() == if old(self).spec_cursor() == old(
                self,
            ).text_view().len() {
                old(self).spec_cursor()
            } else {
                old(self).spec_cursor() + 1
            },
    {
        if self.cursor_pos < rope_len_chars(&self.text) {
            self.cursor_pos = self.cursor_pos + 1;
        }
    }

    /// Put the cursor on `target_row`, at the landing index for visual
    /// column `vis`.
    fn land_on_row(&mut self, target_row: usize, vis: u128)
        requires
            old(self).wf(),
            target_row as int <= row_of(old(self).text_view(), old(self).text_view().len() as int),
        ensures
            final(self).wf(),
            old(self).same_doc(*final(self)),
            ({
                let t = old(self).text_view();
                let tls = line_start(t, target_row as int);
                final(self).spec_cursor() == tls + spec_index_at_visual(
                    t.subrange(tls, line_land_end(t, target_row as int)),
                    0,
                    0,
                    vis as int,
                )
            }),
    {
        let ghost t = self.text_view();
        let len = rope_len_chars(&self.text);
        let tls = self.line_start_of(target_row);
        let tne = self.line_end_of(tls);
        let land_hi = if tne < len && tne > tls && rope_char_at(&self.text, tne - 1) == '\r' {
            tne - 1
        } else {
            tne
        };
        let content = self.collect_range(tls, land_hi);
        let idx = crate::width::index_at_visual(&content, vis);
        self.cursor_pos = tls + idx;
    }

    /// Move the cursor to the previous row, keeping its visual column;
    /// a no-op on the first row.
    pub fn move_cursor_up(&mut self)
        requires
            old(self).wf(),
        ensures
            final(self).wf(),
            old(self).same_doc(*final(self)),
            ({
                let t = old(self).text_view();
                let pos = old(self).spec_cursor();
                let row = row_of(t, pos);
                if row == 0 {
                    final(self).spec_cursor() == pos
                } else {
                    final(self).spec_cursor() == spec_vertical_target(t, pos, row - 1)
                }
            }),
    {
        let ghost t = self.text_view();
        let (row, ls) = self.locate_cursor();
        if row == 0 {
            return ;
        }
        proof {
            lemma_row_of_monotone(t, self.spec_cursor(), t.len() as int);
        }
        let prefix = self.collect_range(ls, self.cursor_pos);
        let vis = crate::width::visual_col_of(&prefix, prefix.len());
        self.land_on_row(row - 1, vis);
    }

    /// Move the cursor to the next row, keeping its visual column;
    /// a no-op on the last row.
    pub fn move_cursor_down(&mut self)
        requires
            old(self).wf(),
        ensures
            final(self).wf(),
            old(self).same_doc(*final(self)),
            ({
                let t = old(self).text_view();
                let pos = old(self).spec_cursor();
                let row = row_of(t, pos);
                if row == row_of(t, t.len() as int) {
                    final(self).spec_cursor() == pos
                } else {
                    final(self).spec_cursor() == spec_vertical_target(t, pos, row + 1)
                }
            }),
    {
        let ghost t = self.text_view();
        let (row, ls) = self.locate_cursor();
        let nl_total = self.newline_total();
        proof {
            lemma_row_of_monotone(t, self.spec_cursor(), t.len() as int);
        }
        if row < nl_total {
            let prefix = self.collect_range(ls, self.cursor_pos);
            let vis = crate::width::visual_col_of(&prefix, prefix.len());
            self.land_on_row(row + 1, vis);
        }
    }

    /// Insert `c` at the cursor and move the cursor past it.
    pub fn insert_char(&mut self, c: char)
        requires
            old(self).wf(),
        ensures
            final(self).wf(),
            final(self).text_view() == old(self).text_view().insert(old(self).spec_cursor(), c),
            final(self).text_view().len() == old(self).text_view().len() + 1,
            final(self).spec_cursor() == old(self).spec_cursor() + 1,
            final(self).spec_status() == Status::Modified,
            final(self).spec_path() == old(self).spec_path(),
            final(self).spec_line_ending() == old(self).spec_line_ending(),
    {
        proof {
            old(self).text_view().insert_ensures(old(self).spec_cursor(), c);
        }
        rope_insert_char(&mut self.text, self.cursor_pos, c);
        // the rope reports its new length in a machine word, which bounds
        // the cursor's next offset
        let _n = rope_len_chars(&self.text);
        self.cursor_pos = self.cursor_pos + 1;
        self.status = Status::Modified;
    }

    /// Insert the document's line ending at the cursor and move the
    /// cursor past it. Adds exactly one row.
    pub fn insert_newline(&mut self)
        requires
            old(self).wf(),
        ensures
            final(self).wf(),
            ({
                let t = old(self).text_view();
                let pos = old(self).spec_cursor();
                let ins = old(self).spec_line_ending().spec_str();
                &&& final(self).text_view() == t.take(pos) + ins + t.skip(pos)
                &&& final(self).text_view().len() == t.len() + ins.len()
                &&& final(self).spec_cursor() == pos + ins.len()
                &&& line_count(final(self).text_view()) == line_count(t) + 1
            }),
            final(self).spec_status() == Status::Modified,
            final(self).spec_path() == old(self).spec_path(),
            final(self).spec_line_ending() == old(self).spec_line_ending(),
    {
        let ghost t = self.text_view();
        let ghost pos = self.spec_cursor();
        let ghost ins = self.spec_line_ending().spec_str();
        let le = self.line_ending;
        let le_len = le.len();
        rope_insert(&mut self.text, self.cursor_pos, le.as_str());
        // the rope reports its new length in a machine word, which bounds
        // the cursor's next offset
        let _n = rope_len_chars(&self.text);
        self.cursor_pos = self.cursor_pos + le_len;
        self.status = Status::Modified;
        proof {
            crate::line_index::lemma_row_of_insertion(t, pos, ins);
            assert(row_of(ins, ins.len() as int) == 1) by {
                assert(row_of(ins, 0) == 0);
                if ins.len() == 2 {
                    assert(row_of(ins, 1) == 0);
                }
            }
        }
    }

    /// Remove the character before the cursor; a `"\r\n"` pair straddling
    /// the cursor's left is removed as one unit. A no-op at offset 0.
    pub fn delete_char(&mut self)
        requires
            old(self).wf(),
        ensures
            final(self).wf(),
            final(self).spec_path() == old(self).spec_path(),
            final(self).spec_line_ending() == old(self).spec_line_ending(),
            ({
                let t = old(self).text_view();
                let pos = old(self).spec_cursor();
                if pos == 0 {
                    &&& final(self).text_view() == t
                    &&& final(self).spec_cursor() == 0
                    &&& final(self).spec_status() == old(self).spec_status()
                } else if crlf_before(t, pos) {
                    &&& final(self).text_view() == t.take(pos - 2) + t.skip(pos)
                    &&& final(self).text_view().len() == t.len() - 2
                    &&& final(self).spec_cursor() == pos - 2
                    &&& final(self).spec_status() == Status::Modified
                } else {
                    &&& final(self).text_view() == t.take(pos - 1) + t.skip(pos)
                    &&& final(self).text_view().len() == t.len() - 1
                    &&& final(self).spec_cursor() == pos - 1
                    &&& final(self).spec_status() == Status::Modified
                }
            }),
    {
        if self.cursor_pos == 0 {
            return ;
        }
        let is_crlf = self.cursor_pos >= 2 && rope_char_at(&self.text, self.cursor_pos - 2) == '\r'
            && rope_char_at(&self.text, self.cursor_pos - 1) == '\n';
        if is_crlf {
            rope_remove(&mut self.text, self.cursor_pos - 2, self.cursor_pos);
            self.cursor_pos = self.cursor_pos - 2;
        } else {
            rope_remove(&mut self.text, self.cursor_pos - 1, self.cursor_pos);
            self.cursor_pos = self.cursor_pos - 1;
        }
        self.status = Status::Modified;
    }

    /// Start a save: with a path bound, turn `Saving` and hand back the
    /// bytes to write; without one, fail with `NoPath` and change
    /// nothing.
    pub fn begin_save(&mut self) -> (r: Result<Vec<u8>, BufferError>)
        requires
            old(self).wf(),
        ensures
            final(self).wf(),
            final(self).text_view() == old(self).text_view(),
            final(self).spec_cursor() == old(self).spec_cursor(),
            final(self).spec_path() == old(self).spec_path(),
            final(self).spec_line_ending() == old(self).spec_line_ending(),
            old(self).spec_path() is None ==> (r matches Err(e) && e.kind
                == BufferErrorKind::NoPath && final(self).spec_status() == old(
                self,
            ).spec_status()),
            old(self).spec_path() is Some ==> r is Ok && final(self).spec_status()
                == Status::Saving,
            r matches Ok(v) ==> v@ == vstd::utf8::encode_utf8(old(self).text_view()),
    {
        if self.file_path.is_some() {
            self.status = Status::Saving;
            Result::Ok(rope_to_bytes(&self.text))
        } else {
            Result::Err(BufferError::no_path())
        }
    }

    /// Finish a save: `Clean` when the bytes reached the disk, back to
    /// `Modified` when they did not.
    pub fn finish_save(&mut self, success: bool)
        requires
            old(self).wf(),
        ensures
            final(self).wf(),
            final(self).text_view() == old(self).text_view(),
            final(self).spec_cursor() == old(self).spec_cursor(),
            final(self).spec_path() == old(self).spec_path(),
            final(self).spec_line_ending() == old(self).spec_line_ending(),
            final(self).spec_status() == if success {
                Status::Clean
            } else {
                Status::Modified
            },
    {
        self.status = if success {
            Status::Clean
        } else {
            Status::Modified
        };
    }

    /// The status-bar message reporting a completed save.
    pub fn save_message(&self, byte_count: usize) -> (m: String)
        requires
            self.spec_path() is Some,
        ensures
            m@ == "Wrote "@ + spec_dec(byte_count as int) + " bytes to "@ + self.spec_path()->0,
    {
        let mut v: Vec<char> = str_to_chars("Wrote ");
        push_dec(&mut v, byte_count);
        let mut mid = str_to_chars(" bytes to ");
        v.append(&mut mid);
        let p = self.file_path.as_ref().unwrap();
        let mut pv = str_to_chars(p.as_str());
        v.append(&mut pv);
        proof {
            assert(v@ =~= "Wrote "@ + spec_dec(byte_count as int) + " bytes to "@
                + self.spec_path()->0);
        }
        chars_to_string(&v)
    }
}

/// Whether the two characters just before offset `pos` are a `"\r\n"`
/// pair.
pub open spec fn crlf_before(t: Seq<char>, pos: int) -> bool {
    pos >= 2 && t[pos - 2] == '\r' && t[pos - 1] == '\n'
}

/// The bytes a document saves are valid UTF-8, and loading them yields
/// the same characters back; so saving, loading, and saving again
/// writes the same byte sequence.
pub proof fn lemma_save_load_round_trip(t: Seq<char>)
    ensures
        vstd::utf8::valid_utf8(vstd::utf8::encode_utf8(t)),
        vstd::utf8::decode_utf8(vstd::utf8::encode_utf8(t)) == t,
{
    vstd::utf8::encode_utf8_valid_utf8(t);
    vstd::utf8::encode_utf8_decode_utf8(t);
}

/// Inserting any character other than a newline and then deleting
/// backward restores the document: the deletion takes the one-character
/// branch (never the `"\r\n"` branch) and removes exactly the inserted
/// character, and the cursor returns to where it was.
pub proof fn lemma_insert_then_delete_undoes(t: Seq<char>, pos: int, c: char)
    requires
        0 <= pos <= t.len(),
        c != '\n',
    ensures
        !crlf_before(t.insert(pos, c), pos + 1),
        t.insert(pos, c).take(pos) + t.insert(pos, c).skip(pos + 1) == t,
{
    t.insert_ensures(pos, c);
    assert(t.insert(pos, c).take(pos) + t.insert(pos, c).skip(pos + 1) =~= t);
}

/// Where a cursor at offset `pos` lands when it moves vertically to
/// `target_row`: the first character of that row whose cells would pass
/// the cursor's visual column, or the row's landing end when the row is
/// visually shorter.
pub open spec fn spec_vertical_target(t: Seq<char>, pos: int, target_row: int) -> int {
    let tls = line_start(t, target_row);
    tls + spec_index_at_visual(
        t.subrange(tls, line_land_end(t, target_row)),
        0,
        0,
        spec_visual_cursor_col(t, pos),
    )
}

/// Visual column of the character offset `pos` on its own row: the cells
/// occupied by the characters between the row's start and `pos`.
pub open spec fn spec_visual_cursor_col(t: Seq<char>, pos: int) -> int {
    let ls = line_start(t, row_of(t, pos));
    spec_visual_col(t.subrange(ls, pos), pos - ls)
}

/// Visual width of the first `x` characters of row `y` of `t`, all of the
/// row when it is shorter.
pub open spec fn spec_col_width_at(t: Seq<char>, x: int, y: int) -> int {
    let line = line_with_term(t, y);
    let n = if x <= line.len() {
        x
    } else {
        line.len() as int
    };
    spec_visual_col(line, n)
}

} // verus!
