//! The dispatch from keystrokes to document operations.
//!
//! The editor loop reads terminal events, turns each one into a [`Key`],
//! and calls [`apply_key`]. Everything the keystroke does to the document
//! happens here, under contract; the loop outside only performs what the
//! returned [`KeyOutcome`] asks for (quitting, or writing bytes to disk).

use vstd::prelude::*;

use crate::buffer::{crlf_before, spec_vertical_target, Buffer, Status};
use crate::line_index::{line_count, row_of};

verus! {

/// A keystroke, already translated out of the terminal's event type.
#[derive(Debug, Clone, Copy, PartialEq, Eq, Structural)]
pub enum Key {
    Left,
    Right,
    Up,
    Down,
    Enter,
    Backspace,
    Tab,
    /// A printable character (shift handling already applied).
    Char(char),
    /// The save chord.
    Save,
    /// The quit chord.
    Quit,
    /// Any event the editor ignores.
    Other,
}

/// What the editor loop should do after a keystroke was applied.
#[derive(Debug, Clone, Copy, PartialEq, Eq, Structural)]
pub enum KeyOutcome {
    /// Keep editing.
    Continue,
    /// Leave the editor.
    Quit,
    /// Write the document out, then report back to the buffer.
    SaveRequested,
}

/// Apply one keystroke to the document and say what the loop should do
/// next. Saving and quitting touch the document only through the caller.
pub fn apply_key(buf: &mut Buffer, key: Key) -> (o: KeyOutcome)
    requires
        old(buf).wf(),
    ensures
        final(buf).wf(),
        ({
            let t = old(buf).text_view();
            let pos = old(buf).spec_cursor();
            let row = row_of(t, pos);
            match key {
                Key::Left => o == KeyOutcome::Continue && old(buf).same_doc(*final(buf)) && final(buf).spec_cursor() == (if pos == 0 {
                    0int
                } else {
                    pos - 1
                }),
                Key::Right => o == KeyOutcome::Continue && old(buf).same_doc(*final(buf)) && final(buf).spec_cursor() == (if pos == t.len() {
                    pos
                } else {
                    pos + 1
                }),
                Key::Up => o == KeyOutcome::Continue && old(buf).same_doc(*final(buf)) && final(buf).spec_cursor() == (if row == 0 {
                    pos
                } else {
                    spec_vertical_target(t, pos, row - 1)
                }),
                Key::Down => o == KeyOutcome::Continue && old(buf).same_doc(*final(buf)) && final(buf).spec_cursor() == (if row == row_of(t, t.len() as int) {
                    pos
                } else {
                    spec_vertical_target(t, pos, row + 1)
                }),
                Key::Enter => {
                    let ins = old(buf).spec_line_ending().spec_str();
                    &&& o == KeyOutcome::Continue
                    &&& final(buf).text_view() == t.take(pos) + ins + t.skip(pos)
                    &&& final(buf).spec_cursor() == pos + ins.len()
                    &&& line_count(final(buf).text_view()) == line_count(t) + 1
                    &&& final(buf).spec_status() == Status::Modified
                    &&& final(buf).spec_path() == old(buf).spec_path()
                    &&& final(buf).spec_line_ending() == old(buf).spec_line_ending()
                },
                Key::Backspace => {
                    &&& o == KeyOutcome::Continue
                    &&& final(buf).spec_path() == old(buf).spec_path()
                    &&& final(buf).spec_line_ending() == old(buf).spec_line_ending()
                    &&& if pos == 0 {
                        final(buf).text_view() == t && final(buf).spec_cursor() == 0 && final(buf).spec_status() == old(buf).spec_status()
                    } else if crlf_before(t, pos) {
                        final(buf).text_view() == t.take(pos - 2) + t.skip(pos) && final(buf).spec_cursor() == pos - 2 && final(buf).spec_status() == Status::Modified
                    } else {
                        final(buf).text_view() == t.take(pos - 1) + t.skip(pos) && final(buf).spec_cursor() == pos - 1 && final(buf).spec_status() == Status::Modified
                    }
                },
                Key::Tab => {
                    &&& o == KeyOutcome::Continue
                    &&& final(buf).text_view() == t.insert(pos, '\t')
                    &&& final(buf).spec_cursor() == pos + 1
                    &&& final(buf).spec_status() == Status::Modified
                    &&& final(buf).spec_path() == old(buf).spec_path()
                    &&& final(buf).spec_line_ending() == old(buf).spec_line_ending()
                },
                Key::Char(c) => {
                    &&& o == KeyOutcome::Continue
                    &&& final(buf).text_view() == t.insert(pos, c)
                    &&& final(buf).spec_cursor() == pos + 1
                    &&& final(buf).spec_status() == Status::Modified
                    &&& final(buf).spec_path() == old(buf).spec_path()
                    &&& final(buf).spec_line_ending() == old(buf).spec_line_ending()
                },
                Key::Save => o == KeyOutcome::SaveRequested && *final(buf) == *old(buf),
                Key::Quit => o == KeyOutcome::Quit && *final(buf) == *old(buf),
                Key::Other => o == KeyOutcome::Continue && *final(buf) == *old(buf),
            }
        }),
{
    match key {
        Key::Left => {
            buf.move_cursor_left();
            KeyOutcome::Continue
        },
        Key::Right => {
            buf.move_cursor_right();
            KeyOutcome::Continue
        },
        Key::Up => {
            buf.move_cursor_up();
            KeyOutcome::Continue
        },
        Key::Down => {
            buf.move_cursor_down();
            KeyOutcome::Continue
        },
        Key::Enter => {
            buf.insert_newline();
            KeyOutcome::Continue
        },
        Key::Backspace => {
            buf.delete_char();
            KeyOutcome::Continue
        },
        Key::Tab => {
            buf.insert_char('\t');
            KeyOutcome::Continue
        },
        Key::Char(c) => {
            buf.insert_char(c);
            KeyOutcome::Continue
        },
        Key::Save => KeyOutcome::SaveRequested,
        Key::Quit => KeyOutcome::Quit,
        Key::Other => KeyOutcome::Continue,
    }
}

} // verus!
