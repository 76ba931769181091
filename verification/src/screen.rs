//! The viewport: the projection of a document onto a terminal frame.
//!
//! A frame is a sequence of drawing commands: position the terminal
//! cursor, clear a row, print text, switch an attribute. The screen owns
//! the terminal dimensions, the vertical scroll offset and the transient
//! status message, and [`Screen::display_buffer`] produces the full
//! command sequence for one frame, equal to the specification
//! [`spec_frame`]. Writing the commands to the terminal is the caller's
//! business.

use vstd::prelude::*;

use crate::buffer::{spec_visual_cursor_col, Buffer};
use crate::line_index::{line_count, line_start, line_with_term, row_of};
use crate::textfmt::{push_dec, spec_dec, str_to_chars};
use crate::width::{char_terminal_width, spec_char_width, spec_clamp_usize, TAB_WIDTH};

verus! {

/// Terminal dimensions in cells.
#[derive(Debug, Clone, Copy, PartialEq, Eq, Structural)]
pub struct WindowSize {
    pub width: u16,
    pub height: u16,
}

/// One drawing command of a frame.
#[derive(Debug, PartialEq, Eq)]
pub enum DrawCmd {
    /// Put the terminal cursor at (column, row).
    MoveTo(u16, u16),
    /// Clear the whole screen.
    ClearAll,
    /// Clear the row the terminal cursor is on.
    ClearLine,
    /// Print text at the terminal cursor.
    Print(Vec<char>),
    /// Dim foreground for the end-of-file indicator.
    SetDimColor,
    /// Back to the default colors.
    ResetColor,
    /// Reverse video for the status bar.
    SetReverse,
    /// Back to the default attributes.
    ResetAttr,
}

/// The mathematical shape of a drawing command.
pub enum FrameOp {
    MoveTo(int, int),
    ClearAll,
    ClearLine,
    Print(Seq<char>),
    SetDimColor,
    ResetColor,
    SetReverse,
    ResetAttr,
}

impl View for DrawCmd {
    type V = FrameOp;

    open spec fn view(&self) -> FrameOp {
        match self {
            DrawCmd::MoveTo(x, y) => FrameOp::MoveTo(*x as int, *y as int),
            DrawCmd::ClearAll => FrameOp::ClearAll,
            DrawCmd::ClearLine => FrameOp::ClearLine,
            DrawCmd::Print(v) => FrameOp::Print(v@),
            DrawCmd::SetDimColor => FrameOp::SetDimColor,
            DrawCmd::ResetColor => FrameOp::ResetColor,
            DrawCmd::SetReverse => FrameOp::SetReverse,
            DrawCmd::ResetAttr => FrameOp::ResetAttr,
        }
    }
}

/// The commands of a frame, as their mathematical shapes.
pub open spec fn cmds_view(cmds: Seq<DrawCmd>) -> Seq<FrameOp> {
    cmds.map_values(|c: DrawCmd| c@)
}

/// The scroll offset after the viewport has followed the cursor: scroll
/// up to the cursor's row, or down just far enough that the row is the
/// last visible body row.
pub open spec fn spec_scroll_after(scroll: int, cursor_row: int, body_rows: int) -> int {
    if cursor_row < scroll {
        cursor_row
    } else if cursor_row >= scroll + body_rows {
        cursor_row - body_rows + 1
    } else {
        scroll
    }
}

/// With at least one body row, following the cursor always brings its
/// row into the body of the viewport.
pub proof fn lemma_scroll_keeps_cursor_visible(scroll: int, cursor_row: int, body_rows: int)
    requires
        body_rows >= 1,
    ensures
        ({
            let s = spec_scroll_after(scroll, cursor_row, body_rows);
            s <= cursor_row < s + body_rows
        }),
{
}

/// What one text row shows: the line's characters walked left to right,
/// tabs expanded to the next tab stop, stopped at a line terminator or
/// once the row is full.
pub open spec fn spec_render_line(line: Seq<char>, i: int, col: int, width: int) -> Seq<char>
    decreases line.len() - i,
{
    if i < 0 || i >= line.len() || col >= width {
        Seq::empty()
    } else if line[i] == '\n' || line[i] == '\r' {
        Seq::empty()
    } else if line[i] == '\t' {
        let pad = (TAB_WIDTH as int) - col % (TAB_WIDTH as int);
        Seq::new(pad as nat, |j: int| ' ') + spec_render_line(line, i + 1, col + pad, width)
    } else {
        seq![line[i]] + spec_render_line(line, i + 1, col + spec_char_width(line[i]), width)
    }
}

/// Render one line into the cells of a row of the given width.
pub fn render_line(line: &Vec<char>, width: u16) -> (out: Vec<char>)
    ensures
        out@ == spec_render_line(line@, 0, 0, width as int),
{
    let mut out: Vec<char> = Vec::new();
    let mut i: usize = 0;
    let mut col: u128 = 0;
    while i < line.len() && col < width as u128
        invariant
            i <= line@.len(),
            0 <= col,
            spec_render_line(line@, 0, 0, width as int) == out@ + spec_render_line(
                line@,
                i as int,
                col as int,
                width as int,
            ),
        ensures
            out@ == spec_render_line(line@, 0, 0, width as int),
        decreases line@.len() - i,
    {
        let c = line[i];
        if c == '\n' || c == '\r' {
            proof {
                assert(spec_render_line(line@, i as int, col as int, width as int)
                    =~= Seq::<char>::empty());
                assert(out@ + Seq::<char>::empty() =~= out@);
            }
            break ;
        }
        if c == '\t' {
            let pad: u128 = (TAB_WIDTH as u128) - col % (TAB_WIDTH as u128);
            let ghost out0 = out@;
            let mut k: u128 = 0;
            while k < pad
                invariant
                    0 <= k <= pad <= TAB_WIDTH as u128,
                    out@ == out0 + Seq::new(k as nat, |j: int| ' '),
                decreases pad - k,
            {
                out.push(' ');
                proof {
                    assert(out@ =~= out0 + Seq::new((k + 1) as nat, |j: int| ' '));
                }
                k = k + 1;
            }
            proof {
                assert(out0 + Seq::new(pad as nat, |j: int| ' ') + spec_render_line(
                    line@,
                    i + 1,
                    col + pad,
                    width as int,
                ) =~= out0 + (Seq::new(pad as nat, |j: int| ' ') + spec_render_line(
                    line@,
                    i + 1,
                    col + pad,
                    width as int,
                )));
            }
            col = col + pad;
        } else {
            let ghost out0 = out@;
            out.push(c);
            let w: usize = match char_terminal_width(c) {
                Option::Some(w) => w,
                Option::None => 1,
            };
            proof {
                assert(out@ + spec_render_line(line@, i + 1, col + w, width as int) =~= out0 + (
                seq![line@[i as int]] + spec_render_line(line@, i + 1, col + w, width as int)));
            }
            col = col + (w as u128);
        }
        i = i + 1;
    }
    out
}

/// The text of the status bar: the path (or a placeholder) and the
/// cursor's 1-based row:column.
pub open spec fn spec_status_text(path: Option<Seq<char>>, row: int, col: int) -> Seq<char> {
    (match path {
        Option::Some(p) => p,
        Option::None => "[No Name]"@,
    }) + " - "@ + spec_dec(row + 1) + ":"@ + spec_dec(col + 1)
}

/// The commands that draw screen row `r` of the body: clear it, then its
/// document line if one is scrolled there, else the dimmed end-of-file
/// indicator.
pub open spec fn spec_row_ops(t: Seq<char>, scroll: int, r: int, width: int) -> Seq<FrameOp> {
    seq![FrameOp::MoveTo(0, r), FrameOp::ClearLine] + if scroll + r < line_count(t) {
        seq![FrameOp::Print(spec_render_line(line_with_term(t, scroll + r), 0, 0, width))]
    } else {
        seq![FrameOp::SetDimColor, FrameOp::Print(seq!['~']), FrameOp::ResetColor]
    }
}

/// The commands that draw the first `rows` body rows.
pub open spec fn spec_body_ops(t: Seq<char>, scroll: int, rows: int, width: int) -> Seq<FrameOp>
    decreases rows,
{
    if rows <= 0 {
        Seq::empty()
    } else {
        spec_body_ops(t, scroll, rows - 1, width) + spec_row_ops(t, scroll, rows - 1, width)
    }
}

/// The commands that draw the status bar in reverse video.
pub open spec fn spec_status_ops(path: Option<Seq<char>>, row: int, col: int, status_row: int)
    -> Seq<FrameOp> {
    seq![
        FrameOp::MoveTo(0, status_row),
        FrameOp::ClearLine,
        FrameOp::SetReverse,
        FrameOp::Print(spec_status_text(path, row, col)),
        FrameOp::ResetAttr,
    ]
}

/// The commands that draw a fresh status message on the row above the
/// status bar; none when there is no message or it has gone stale.
pub open spec fn spec_message_ops(msg: Option<Seq<char>>, fresh: bool, status_row: int)
    -> Seq<FrameOp> {
    if fresh && msg is Some {
        seq![
            FrameOp::MoveTo(
                0,
                if status_row >= 1 {
                    status_row - 1
                } else {
                    0
                },
            ),
            FrameOp::ClearLine,
            FrameOp::Print(msg->0),
        ]
    } else {
        Seq::empty()
    }
}

/// `v` clamped into the `u16` range.
pub open spec fn spec_clamp_u16(v: int) -> int {
    if v > u16::MAX as int {
        u16::MAX as int
    } else {
        v
    }
}

/// `a - b`, stopped at zero.
pub open spec fn spec_sat_sub(a: int, b: int) -> int {
    if a >= b {
        a - b
    } else {
        0
    }
}

/// Whether a message stamped at `stamp` is still fresh at `now`
/// (younger than three seconds), in milliseconds.
pub open spec fn spec_msg_fresh(now: int, stamp: int) -> bool {
    now - stamp < 3000
}

/// All commands of one frame, in order: the body rows, the status bar,
/// the fresh status message if any, and the final cursor placement.
pub open spec fn spec_frame(
    t: Seq<char>,
    pos: int,
    path: Option<Seq<char>>,
    msg: Option<Seq<char>>,
    fresh: bool,
    width: int,
    height: int,
    scroll: int,
) -> Seq<FrameOp> {
    let rows = if height >= 1 {
        height - 1
    } else {
        0
    };
    let row = row_of(t, pos);
    let col = pos - line_start(t, row);
    spec_body_ops(t, scroll, rows, width) + spec_status_ops(path, row, col, rows)
        + spec_message_ops(msg, fresh, rows) + seq![
        FrameOp::MoveTo(spec_clamp_u16(spec_visual_cursor_col(t, pos)), spec_sat_sub(row, scroll)),
    ]
}

/// The terminal screen: its dimensions, the scroll position, and the
/// transient status message.
pub struct Screen {
    win_size: WindowSize,
    scroll_offset: usize,
    status_message: Option<String>,
    status_message_time: u64,
}

impl Screen {
    pub closed spec fn spec_width(self) -> int {
        self.win_size.width as int
    }

    pub closed spec fn spec_height(self) -> int {
        self.win_size.height as int
    }

    pub closed spec fn spec_scroll(self) -> int {
        self.scroll_offset as int
    }

    pub closed spec fn spec_message(self) -> Option<Seq<char>> {
        match self.status_message {
            Option::Some(m) => Option::Some(m@),
            Option::None => Option::None,
        }
    }

    pub closed spec fn spec_message_time(self) -> int {
        self.status_message_time as int
    }

    /// A screen of the given dimensions, scrolled to the top, with no
    /// message.
    pub fn new(width: u16, height: u16) -> (s: Screen)
        ensures
            s.spec_width() == width,
            s.spec_height() == height,
            s.spec_scroll() == 0,
            s.spec_message() is None,
    {
        Screen {
            win_size: WindowSize { width, height },
            scroll_offset: 0,
            status_message: Option::None,
            status_message_time: 0,
        }
    }

    /// The current terminal dimensions.
    pub fn window_size(&self) -> (w: &WindowSize)
        ensures
            w.width == self.spec_width(),
            w.height == self.spec_height(),
    {
        &self.win_size
    }

    /// The document row shown on the top body row.
    pub fn scroll_offset(&self) -> (o: usize)
        ensures
            o == self.spec_scroll(),
    {
        self.scroll_offset
    }

    /// Record a terminal resize; the commands repaint from a blank
    /// screen.
    pub fn update_window_size(&mut self, width: u16, height: u16) -> (cmds: Vec<DrawCmd>)
        ensures
            final(self).spec_width() == width,
            final(self).spec_height() == height,
            final(self).spec_scroll() == old(self).spec_scroll(),
            final(self).spec_message() == old(self).spec_message(),
            final(self).spec_message_time() == old(self).spec_message_time(),
            cmds_view(cmds@) == seq![FrameOp::ClearAll, FrameOp::MoveTo(0, 0)],
    {
        self.win_size = WindowSize { width, height };
        self.refresh()
    }

    /// Commands that clear the whole screen.
    pub fn clear(&self) -> (cmds: Vec<DrawCmd>)
        ensures
            cmds_view(cmds@) == seq![FrameOp::ClearAll],
    {
        let mut cmds: Vec<DrawCmd> = Vec::new();
        cmds.push(DrawCmd::ClearAll);
        proof {
            assert(cmds_view(cmds@) =~= seq![FrameOp::ClearAll]);
        }
        cmds
    }

    /// Commands that clear the whole screen and home the cursor.
    pub fn refresh(&self) -> (cmds: Vec<DrawCmd>)
        ensures
            cmds_view(cmds@) == seq![FrameOp::ClearAll, FrameOp::MoveTo(0, 0)],
    {
        let mut cmds: Vec<DrawCmd> = Vec::new();
        cmds.push(DrawCmd::ClearAll);
        cmds.push(DrawCmd::MoveTo(0, 0));
        proof {
            assert(cmds_view(cmds@) =~= seq![FrameOp::ClearAll, FrameOp::MoveTo(0, 0)]);
        }
        cmds
    }

    /// Replace the status message and restart its three-second clock.
    pub fn set_status_message(&mut self, message: String, now_ms: u64)
        ensures
            final(self).spec_message() == Option::Some(message@),
            final(self).spec_message_time() == now_ms,
            final(self).spec_width() == old(self).spec_width(),
            final(self).spec_height() == old(self).spec_height(),
            final(self).spec_scroll() == old(self).spec_scroll(),
    {
        self.status_message = Option::Some(message);
        self.status_message_time = now_ms;
    }

    /// Produce one complete frame for the document: follow the cursor
    /// with the scroll offset, draw every body row, the status bar and
    /// any fresh message, and leave the terminal cursor at the
    /// document cursor's visual position. A stale message is dropped.
    pub fn display_buffer(&mut self, buf: &Buffer, now_ms: u64) -> (cmds: Vec<DrawCmd>)
        requires
            buf.wf(),
            buf.text_view().len() < usize::MAX,
        ensures
            final(self).spec_width() == old(self).spec_width(),
            final(self).spec_height() == old(self).spec_height(),
            final(self).spec_scroll() == spec_scroll_after(
                old(self).spec_scroll(),
                row_of(buf.text_view(), buf.spec_cursor()),
                if old(self).spec_height() >= 1 {
                    old(self).spec_height() - 1
                } else {
                    0
                },
            ),
            old(self).spec_height() >= 2 ==> final(self).spec_scroll() <= row_of(
                buf.text_view(),
                buf.spec_cursor(),
            ) < final(self).spec_scroll() + old(self).spec_height() - 1,
            ({
                let fresh = spec_msg_fresh(now_ms as int, old(self).spec_message_time());
                &&& (old(self).spec_message() is Some && fresh) ==> final(self).spec_message()
                    == old(self).spec_message() && final(self).spec_message_time() == old(
                    self,
                ).spec_message_time()
                &&& (old(self).spec_message() is None || !fresh) ==> final(self).spec_message()
                    is None
                &&& cmds_view(cmds@) == spec_frame(
                    buf.text_view(),
                    buf.spec_cursor(),
                    buf.spec_path(),
                    old(self).spec_message(),
                    fresh,
                    old(self).spec_width(),
                    old(self).spec_height(),
                    final(self).spec_scroll(),
                )
            }),
    {
        let ghost t = buf.text_view();
        let ghost pos = buf.spec_cursor();
        let row = buf.cursor_row();
        let width = self.win_size.width;
        let height = self.win_size.height;
        let rows: usize = if height >= 1 {
            (height - 1) as usize
        } else {
            0
        };
        proof {
            crate::line_index::lemma_row_of_nonneg(t, pos);
        }
        if row < self.scroll_offset {
            self.scroll_offset = row;
        } else if row - self.scroll_offset >= rows {
            self.scroll_offset = row - rows + 1;
        }
        let scroll = self.scroll_offset;
        let ghost gscroll = scroll as int;
        let mut cmds: Vec<DrawCmd> = Vec::new();
        let lc = buf.line_count();
        let mut r: usize = 0;
        while r < rows
            invariant
                r <= rows,
                rows <= 65534,
                t == buf.text_view(),
                lc as int == line_count(t),
                gscroll == scroll as int,
                cmds_view(cmds@) == spec_body_ops(t, gscroll, r as int, width as int),
            decreases rows - r,
        {
            cmds.push(DrawCmd::MoveTo(0, r as u16));
            cmds.push(DrawCmd::ClearLine);
            if scroll < lc && r < lc - scroll {
                let line = buf.get_line(scroll + r);
                let txt = render_line(&line, width);
                cmds.push(DrawCmd::Print(txt));
            } else {
                cmds.push(DrawCmd::SetDimColor);
                let tilde: Vec<char> = vec!['~'];
                proof {
                    assert(tilde@ =~= seq!['~']);
                }
                cmds.push(DrawCmd::Print(tilde));
                cmds.push(DrawCmd::ResetColor);
            }
            proof {
                assert(cmds_view(cmds@) =~= spec_body_ops(t, gscroll, r + 1, width as int));
            }
            r = r + 1;
        }
        let status_row: u16 = if height >= 1 {
            height - 1
        } else {
            0
        };
        cmds.push(DrawCmd::MoveTo(0, status_row));
        cmds.push(DrawCmd::ClearLine);
        cmds.push(DrawCmd::SetReverse);
        let col = buf.cursor_column();
        let mut stat: Vec<char> = match buf.file_path() {
            Option::Some(p) => str_to_chars(p.as_str()),
            Option::None => str_to_chars("[No Name]"),
        };
        let mut sep = str_to_chars(" - ");
        stat.append(&mut sep);
        push_dec(&mut stat, row + 1);
        let mut colon = str_to_chars(":");
        stat.append(&mut colon);
        push_dec(&mut stat, col + 1);
        proof {
            assert(stat@ =~= spec_status_text(buf.spec_path(), row as int, col as int));
        }
        cmds.push(DrawCmd::Print(stat));
        cmds.push(DrawCmd::ResetAttr);
        let ghost after_status = cmds_view(cmds@);
        proof {
            assert(after_status =~= spec_body_ops(t, gscroll, rows as int, width as int)
                + spec_status_ops(buf.spec_path(), row as int, col as int, rows as int));
        }
        let fresh = if now_ms >= self.status_message_time {
            now_ms - self.status_message_time < 3000
        } else {
            true
        };
        if self.status_message.is_some() {
            if fresh {
                let msg_row: u16 = if status_row >= 1 {
                    status_row - 1
                } else {
                    0
                };
                cmds.push(DrawCmd::MoveTo(0, msg_row));
                cmds.push(DrawCmd::ClearLine);
                let m = self.status_message.as_ref().unwrap();
                cmds.push(DrawCmd::Print(str_to_chars(m.as_str())));
            } else {
                self.status_message = Option::None;
            }
        }
        let ghost after_msg = cmds_view(cmds@);
        proof {
            assert(after_msg =~= after_status + spec_message_ops(
                old(self).spec_message(),
                spec_msg_fresh(now_ms as int, old(self).spec_message_time()),
                rows as int,
            ));
        }
        let vis = buf.get_visual_cursor_x();
        let cx: u16 = if vis > u16::MAX as usize {
            u16::MAX
        } else {
            vis as u16
        };
        let cy_usize: usize = if row >= scroll {
            row - scroll
        } else {
            0
        };
        proof {
            if rows >= 1 {
                lemma_scroll_keeps_cursor_visible(old(self).spec_scroll(), row as int, rows as int);
            }
        }
        let cy: u16 = cy_usize as u16;
        cmds.push(DrawCmd::MoveTo(cx, cy));
        proof {
            assert(cmds_view(cmds@) =~= spec_frame(
                t,
                pos,
                buf.spec_path(),
                old(self).spec_message(),
                spec_msg_fresh(now_ms as int, old(self).spec_message_time()),
                width as int,
                height as int,
                gscroll,
            ));
        }
        cmds
    }
}

} // verus!
