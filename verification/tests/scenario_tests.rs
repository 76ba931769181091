use tedit::buffer::{Buffer, LineEnding, Status};
use tedit::keymap::{apply_key, Key, KeyOutcome};

fn text_of(b: &Buffer) -> String {
    b.chars().iter().collect()
}

#[test]
fn fresh_edit_and_save() {
    // A brand-new file: type three characters, save, quit.
    let mut b = Buffer::new(Some(String::from("/tmp/x.txt")), LineEnding::LF);
    assert!(matches!(apply_key(&mut b, Key::Char('H')), KeyOutcome::Continue));
    assert!(matches!(apply_key(&mut b, Key::Char('i')), KeyOutcome::Continue));
    assert!(matches!(apply_key(&mut b, Key::Char('!')), KeyOutcome::Continue));
    assert!(matches!(apply_key(&mut b, Key::Save), KeyOutcome::SaveRequested));
    let bytes = b.begin_save().unwrap();
    assert_eq!(bytes, b"Hi!".to_vec());
    assert_eq!(bytes.len(), 3);
    b.finish_save(true);
    assert!(matches!(b.status(), Status::Clean));
    assert_eq!(b.save_message(bytes.len()), "Wrote 3 bytes to /tmp/x.txt");
    assert!(matches!(apply_key(&mut b, Key::Quit), KeyOutcome::Quit));
}

#[test]
fn crlf_document_backspace() {
    // Windows-hosted document: a, Enter, b, Backspace, Backspace.
    let mut b = Buffer::new(None, LineEnding::CRLF);
    apply_key(&mut b, Key::Char('a'));
    assert_eq!(text_of(&b), "a");
    apply_key(&mut b, Key::Enter);
    apply_key(&mut b, Key::Char('b'));
    assert_eq!(text_of(&b), "a\r\nb");
    apply_key(&mut b, Key::Backspace);
    assert_eq!(text_of(&b), "a\r\n");
    apply_key(&mut b, Key::Backspace);
    assert_eq!(text_of(&b), "a");
    assert_eq!(b.cursor_column(), 1);
    assert_eq!(b.char_count(), 1);
}

#[test]
fn tab_visual_alignment() {
    let mut b = Buffer::from_bytes(b"\tX", None, LineEnding::LF).unwrap();
    apply_key(&mut b, Key::Right);
    assert_eq!(b.cursor_column(), 1);
    assert_eq!(b.get_visual_cursor_x(), 8);
    apply_key(&mut b, Key::Right);
    assert_eq!(b.cursor_column(), 2);
    assert_eq!(b.get_visual_cursor_x(), 9);
}

#[test]
fn wide_character_navigation() {
    let mut b = Buffer::from_bytes("\u{754c}A".as_bytes(), None, LineEnding::LF).unwrap();
    apply_key(&mut b, Key::Right);
    assert_eq!(b.cursor_column(), 1);
    assert_eq!(b.get_visual_cursor_x(), 2);
    apply_key(&mut b, Key::Right);
    assert_eq!(b.cursor_column(), 2);
    assert_eq!(b.get_visual_cursor_x(), 3);
}

#[test]
fn vertical_movement_preserves_visual_column() {
    let mut b = Buffer::from_bytes(b"abcdef\n123\nxyzwvu", None, LineEnding::LF).unwrap();
    for _ in 0..4 {
        apply_key(&mut b, Key::Right);
    }
    assert_eq!(b.get_visual_cursor_x(), 4);
    apply_key(&mut b, Key::Down);
    // line "123" is visually shorter: land at its end
    assert_eq!(b.cursor_row(), 1);
    assert_eq!(b.cursor_column(), 3);
    assert_eq!(b.get_visual_cursor_x(), 3);
    apply_key(&mut b, Key::Down);
    // line "xyzwvu" is long enough: keep visual column 3
    assert_eq!(b.cursor_row(), 2);
    assert_eq!(b.cursor_column(), 3);
    assert_eq!(b.get_visual_cursor_x(), 3);
}

#[test]
fn tabs_only_line_lands_on_tab_stops() {
    let mut b = Buffer::from_bytes(b"\t\t\t", None, LineEnding::LF).unwrap();
    let mut expected: usize = 0;
    assert_eq!(b.get_visual_cursor_x(), expected);
    for _ in 0..3 {
        apply_key(&mut b, Key::Right);
        expected += 8;
        assert_eq!(b.get_visual_cursor_x(), expected);
        assert_eq!(b.get_visual_cursor_x() % 8, 0);
    }
}

#[test]
fn uppercase_characters_insert_as_given() {
    let mut b = Buffer::new(None, LineEnding::LF);
    apply_key(&mut b, Key::Char('A'));
    apply_key(&mut b, Key::Tab);
    apply_key(&mut b, Key::Other);
    assert_eq!(text_of(&b), "A\t");
    assert_eq!(b.cursor_column(), 2);
}
