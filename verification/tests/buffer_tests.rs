use tedit::buffer::{Buffer, BufferError, BufferErrorKind, LineEnding, Status};

fn doc(text: &str) -> Buffer {
    let b = Buffer::from_bytes(text.as_bytes(), None, LineEnding::LF).unwrap();
    b
}

fn text_of(b: &Buffer) -> String {
    b.chars().iter().collect()
}

#[test]
fn empty_document_has_one_line_and_cursor_zero() {
    let b = doc("");
    assert_eq!(b.line_count(), 1);
    assert_eq!(b.char_count(), 0);
    assert_eq!(b.cursor_row(), 0);
    assert_eq!(b.cursor_column(), 0);
    assert!(matches!(b.status(), Status::Clean));
}

#[test]
fn insert_char_grows_by_one_and_modifies() {
    let mut b = doc("xy");
    b.move_cursor_right();
    b.insert_char('q');
    assert_eq!(b.char_count(), 3);
    assert_eq!(text_of(&b), "xqy");
    assert_eq!(b.cursor_column(), 2);
    assert!(matches!(b.status(), Status::Modified));
}

#[test]
fn insert_newline_adds_one_line_lf() {
    let mut b = doc("ab");
    b.move_cursor_right();
    let lines_before = b.line_count();
    b.insert_newline();
    assert_eq!(b.line_count(), lines_before + 1);
    assert_eq!(text_of(&b), "a\nb");
    assert_eq!(b.cursor_row(), 1);
    assert_eq!(b.cursor_column(), 0);
}

#[test]
fn insert_newline_adds_one_line_crlf() {
    let mut b = Buffer::new(None, LineEnding::CRLF);
    b.insert_char('a');
    let lines_before = b.line_count();
    b.insert_newline();
    assert_eq!(b.line_count(), lines_before + 1);
    assert_eq!(text_of(&b), "a\r\n");
    assert_eq!(b.char_count(), 3);
}

#[test]
fn delete_backward_removes_crlf_as_one_unit() {
    let mut b = doc("a\r\n");
    b.move_cursor_right();
    b.move_cursor_right();
    b.move_cursor_right();
    b.delete_char();
    assert_eq!(text_of(&b), "a");
    assert_eq!(b.cursor_column(), 1);
    assert!(matches!(b.status(), Status::Modified));
}

#[test]
fn delete_backward_removes_one_char_otherwise() {
    let mut b = doc("ab");
    b.move_cursor_right();
    b.move_cursor_right();
    b.delete_char();
    assert_eq!(text_of(&b), "a");
    assert_eq!(b.cursor_column(), 1);
}

#[test]
fn delete_backward_at_zero_is_noop() {
    let mut b = doc("ab");
    b.delete_char();
    assert_eq!(text_of(&b), "ab");
    assert_eq!(b.cursor_column(), 0);
    assert!(matches!(b.status(), Status::Clean));
}

#[test]
fn navigation_clamps_at_bounds() {
    let mut b = doc("ab\ncd");
    b.move_cursor_left();
    assert_eq!(b.cursor_row(), 0);
    assert_eq!(b.cursor_column(), 0);
    b.move_cursor_up();
    assert_eq!(b.cursor_row(), 0);
    assert_eq!(b.cursor_column(), 0);
    for _ in 0..10 {
        b.move_cursor_right();
    }
    assert_eq!(b.cursor_row(), 1);
    assert_eq!(b.cursor_column(), 2);
    b.move_cursor_right();
    assert_eq!(b.cursor_column(), 2);
    b.move_cursor_down();
    assert_eq!(b.cursor_row(), 1);
    assert_eq!(b.cursor_column(), 2);
}

#[test]
fn cursor_stays_inside_document_through_navigation() {
    let mut b = doc("one\ntwo three\n\nfour");
    for step in 0..40 {
        match step % 4 {
            0 => b.move_cursor_right(),
            1 => b.move_cursor_down(),
            2 => b.move_cursor_left(),
            _ => b.move_cursor_up(),
        }
        let row = b.cursor_row();
        let col = b.cursor_column();
        assert!(row < b.line_count());
        assert!(col <= b.char_count());
    }
}

#[test]
fn cursor_row_and_column_match_offsets() {
    let mut b = doc("ab\ncde\nf");
    for _ in 0..4 {
        b.move_cursor_right();
    }
    // offset 4 sits on row 1 ("cde"), one past its start at offset 3
    assert_eq!(b.cursor_row(), 1);
    assert_eq!(b.cursor_column(), 1);
    let (x, y) = b.get_cursor_xy();
    assert_eq!((x, y), (1, 1));
}

#[test]
fn save_round_trip_preserves_bytes() {
    let mut b = Buffer::from_bytes(
        "caf\u{e9}\nline two\n".as_bytes(),
        Some(String::from("somewhere.txt")),
        LineEnding::LF,
    )
    .unwrap();
    let saved = b.begin_save().unwrap();
    b.finish_save(true);
    assert!(matches!(b.status(), Status::Clean));
    let reloaded = Buffer::from_bytes(&saved, Some(String::from("somewhere.txt")), LineEnding::LF)
        .unwrap();
    assert_eq!(reloaded.bytes(), saved);
    assert_eq!(text_of(&reloaded), "caf\u{e9}\nline two\n");
}

#[test]
fn insert_then_delete_restores_state() {
    let mut b = doc("hello\nworld");
    for _ in 0..7 {
        b.move_cursor_right();
    }
    let bytes_before = b.bytes();
    let col_before = b.cursor_column();
    let row_before = b.cursor_row();
    b.insert_char('Z');
    b.delete_char();
    assert_eq!(b.bytes(), bytes_before);
    assert_eq!(b.cursor_column(), col_before);
    assert_eq!(b.cursor_row(), row_before);
}

#[test]
fn begin_save_without_path_fails_with_no_path() {
    let mut b = Buffer::new(None, LineEnding::LF);
    b.insert_char('x');
    let e: BufferError = b.begin_save().unwrap_err();
    assert_eq!(e.kind, BufferErrorKind::NoPath);
    assert_eq!(e.message, "No file associated with buffer");
}

#[test]
fn invalid_utf8_fails_to_load() {
    let e = Buffer::from_bytes(&[0x66, 0xff, 0xfe], None, LineEnding::LF).unwrap_err();
    assert_eq!(e.kind, BufferErrorKind::IoFailure);
    assert_eq!(e.message, "I/O error occurred");
}

#[test]
fn permission_errors_carry_their_messages() {
    let r = BufferError::permission_denied_read();
    assert_eq!(r.kind, BufferErrorKind::PermissionDenied);
    assert_eq!(r.message, "Can't read file");
    let w = BufferError::permission_denied_write();
    assert_eq!(w.kind, BufferErrorKind::PermissionDenied);
    assert_eq!(w.message, "Can't write to file");
}

#[test]
fn multibyte_text_encodes_and_decodes() {
    let b = doc("\u{e9}");
    assert_eq!(b.char_count(), 1);
    assert_eq!(b.bytes(), vec![0xc3, 0xa9]);
}

#[test]
fn get_line_includes_terminator() {
    let b = doc("ab\ncd");
    let l0: String = b.get_line(0).iter().collect();
    let l1: String = b.get_line(1).iter().collect();
    assert_eq!(l0, "ab\n");
    assert_eq!(l1, "cd");
    let all = b.lines();
    assert_eq!(all.len(), 2);
    assert_eq!(all[0].iter().collect::<String>(), "ab\n");
}

#[test]
fn line_ending_strings() {
    assert_eq!(LineEnding::LF.as_str(), "\n");
    assert_eq!(LineEnding::CRLF.as_str(), "\r\n");
    assert_eq!(LineEnding::LF.len(), 1);
    assert_eq!(LineEnding::CRLF.len(), 2);
}

#[test]
fn file_props_report_line_ending() {
    let p = tedit::file_props::FileProps::new(LineEnding::CRLF);
    assert_eq!(p.line_ending(), "\r\n");
    let q = tedit::file_props::FileProps::new(LineEnding::LF);
    assert_eq!(q.line_ending(), "\n");
}
