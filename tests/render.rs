use rydl::editor::Editor;
use rydl::handler::Key;
use rydl::render::{expand_tabs, to_decimal};

#[test]
fn tabs_reach_the_next_tab_stop_when_shown() {
    assert_eq!(expand_tabs("\tb", 4), "    b");
    assert_eq!(expand_tabs("ab\tc", 4), "ab  c");
    assert_eq!(expand_tabs("abcd\te", 4), "abcd    e");
    assert_eq!(expand_tabs("e\u{301}\tx", 4), "e\u{301}   x");
    assert_eq!(expand_tabs("no tabs", 4), "no tabs");
    assert_eq!(expand_tabs("", 4), "");
}

#[test]
fn decimal_numerals() {
    assert_eq!(to_decimal(0), "0");
    assert_eq!(to_decimal(7), "7");
    assert_eq!(to_decimal(10), "10");
    assert_eq!(to_decimal(1234567), "1234567");
    assert_eq!(to_decimal(usize::MAX), usize::MAX.to_string());
}

#[test]
fn line_labels_are_right_aligned_in_the_gutter() {
    let mut e = Editor::new(80, 24);
    assert_eq!(e.line_label(1), "1");
    e.load_text("1\n2\n3\n4\n5\n6\n7\n8\n9\n10\n");
    assert_eq!(e.start_x(), 4);
    assert_eq!(e.line_label(3), " 3");
    assert_eq!(e.line_label(10), "10");
    assert_eq!(e.line_label(123), "123");
}

#[test]
fn visible_lines_follow_the_view() {
    let mut e = Editor::new(80, 6);
    assert_eq!(e.visible_lines(), (1, 1));
    e.load_text("a\nb\nc\nd\ne\n");
    assert_eq!(e.visible_lines(), (1, 3));
    for _ in 0..4 {
        e.move_cursor_down();
    }
    assert_eq!(e.visible_lines(), (3, 5));
}

#[test]
fn editing_never_empties_the_buffer() {
    let mut e = Editor::new(80, 24);
    e.handle_key(Key::Char('i'));
    for key in [
        Key::Char('a'),
        Key::Char('\n'),
        Key::Backspace,
        Key::Backspace,
        Key::Backspace,
        Key::Backspace,
        Key::Char('\n'),
        Key::Backspace,
    ] {
        e.handle_key(key);
        assert!(e.buffer.len() >= 1);
        assert!(e.current_line >= 1 && e.current_line <= e.buffer.len());
    }
    assert_eq!(e.buffer.len(), 1);
    assert_eq!(e.buffer.get(1).unwrap(), "");
}

#[test]
fn appended_lines_keep_the_cursor() {
    let mut e = Editor::new(80, 24);
    e.load_text("a");
    e.append_line(String::from("from a script"));
    assert_eq!(e.buffer.len(), 2);
    assert_eq!(e.buffer.get(2).unwrap(), "from a script");
    assert_eq!((e.current_line, e.current_char), (1, 1));
    assert!(e.modified);
}
