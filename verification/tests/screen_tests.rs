use tedit::buffer::{Buffer, LineEnding};
use tedit::keymap::{apply_key, Key};
use tedit::screen::{render_line, DrawCmd, Screen};

fn doc(text: &str) -> Buffer {
    Buffer::from_bytes(text.as_bytes(), None, LineEnding::LF).unwrap()
}

fn printed(cmds: &[DrawCmd]) -> Vec<String> {
    cmds.iter()
        .filter_map(|c| match c {
            DrawCmd::Print(v) => Some(v.iter().collect::<String>()),
            _ => None,
        })
        .collect()
}

#[test]
fn scroll_follows_cursor_down() {
    // Viewport height 5 gives 4 body rows; 20 lines; 10 downs.
    let mut text = String::new();
    for i in 1..=20 {
        text.push_str(&format!("L{:02}", i));
        if i != 20 {
            text.push('\n');
        }
    }
    let mut b = doc(&text);
    let mut s = Screen::new(80, 5);
    s.display_buffer(&b, 0);
    assert_eq!(s.scroll_offset(), 0);
    for _ in 0..10 {
        apply_key(&mut b, Key::Down);
        s.display_buffer(&b, 0);
    }
    assert_eq!(b.cursor_row(), 10);
    assert_eq!(s.scroll_offset(), 7);
}

#[test]
fn scroll_follows_cursor_back_up() {
    let text = (0..30).map(|i| format!("l{}", i)).collect::<Vec<_>>().join("\n");
    let mut b = doc(&text);
    let mut s = Screen::new(80, 5);
    for _ in 0..20 {
        apply_key(&mut b, Key::Down);
    }
    s.display_buffer(&b, 0);
    assert_eq!(s.scroll_offset(), 17);
    for _ in 0..20 {
        apply_key(&mut b, Key::Up);
    }
    s.display_buffer(&b, 0);
    assert_eq!(s.scroll_offset(), 0);
}

#[test]
fn frame_ends_with_cursor_placement() {
    let mut b = doc("ab\ncd");
    apply_key(&mut b, Key::Down);
    apply_key(&mut b, Key::Right);
    let mut s = Screen::new(80, 24);
    let cmds = s.display_buffer(&b, 0);
    assert_eq!(cmds.last().unwrap(), &DrawCmd::MoveTo(1, 1));
}

#[test]
fn status_bar_shows_name_and_position() {
    let b = Buffer::from_bytes(b"hello", Some(String::from("notes.txt")), LineEnding::LF)
        .unwrap();
    let mut s = Screen::new(80, 24);
    let cmds = s.display_buffer(&b, 0);
    let texts = printed(&cmds);
    assert!(texts.contains(&String::from("notes.txt - 1:1")));
}

#[test]
fn status_bar_placeholder_without_path() {
    let b = doc("x");
    let mut s = Screen::new(80, 24);
    let cmds = s.display_buffer(&b, 0);
    let texts = printed(&cmds);
    assert!(texts.contains(&String::from("[No Name] - 1:1")));
}

#[test]
fn empty_rows_show_eof_indicator() {
    let b = doc("only");
    let mut s = Screen::new(80, 4);
    let cmds = s.display_buffer(&b, 0);
    let texts = printed(&cmds);
    // three body rows: one document line, two tilde rows
    assert_eq!(texts.iter().filter(|t| t.as_str() == "~").count(), 2);
}

#[test]
fn fresh_message_is_drawn_and_stale_message_is_dropped() {
    let b = doc("x");
    let mut s = Screen::new(80, 24);
    s.set_status_message(String::from("saved it"), 1_000);
    let cmds = s.display_buffer(&b, 2_000);
    assert!(printed(&cmds).contains(&String::from("saved it")));
    // 3 seconds later the message disappears and stays gone
    let cmds = s.display_buffer(&b, 4_500);
    assert!(!printed(&cmds).contains(&String::from("saved it")));
    let cmds = s.display_buffer(&b, 4_600);
    assert!(!printed(&cmds).contains(&String::from("saved it")));
}

#[test]
fn render_line_expands_tabs_to_tab_stops() {
    let line: Vec<char> = "\tX".chars().collect();
    let out: String = render_line(&line, 80).iter().collect();
    assert_eq!(out, "        X");
    let line2: Vec<char> = "ab\tc".chars().collect();
    let out2: String = render_line(&line2, 80).iter().collect();
    assert_eq!(out2, "ab      c");
}

#[test]
fn render_line_stops_at_terminators_and_width() {
    let line: Vec<char> = "ab\ncd".chars().collect();
    let out: String = render_line(&line, 80).iter().collect();
    assert_eq!(out, "ab");
    let long: Vec<char> = "abcdefgh".chars().collect();
    let out2: String = render_line(&long, 3).iter().collect();
    assert_eq!(out2, "abc");
}

#[test]
fn resize_repaints_from_blank_screen() {
    let mut s = Screen::new(80, 24);
    let cmds = s.update_window_size(100, 40);
    assert_eq!(cmds, vec![DrawCmd::ClearAll, DrawCmd::MoveTo(0, 0)]);
    assert_eq!(s.window_size().width, 100);
    assert_eq!(s.window_size().height, 40);
    assert_eq!(s.clear(), vec![DrawCmd::ClearAll]);
}
