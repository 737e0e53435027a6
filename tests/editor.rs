use rydl::editor::{Editor, Mode};
use rydl::handler::{Key, KeyOutcome};

fn lines(e: &Editor) -> Vec<String> {
    e.buffer.iter().cloned().collect()
}

fn typed(e: &mut Editor, s: &str) {
    for c in s.chars() {
        assert_eq!(e.handle_key(Key::Char(c)), KeyOutcome::Handled);
    }
}

#[test]
fn scenario_insert_then_enter_then_escape() {
    let mut e = Editor::new(80, 24);
    assert_eq!(lines(&e), vec![""]);
    assert_eq!(e.mode, Mode::Command);
    e.handle_key(Key::Char('i'));
    assert_eq!(e.mode, Mode::Insert);
    typed(&mut e, "hello");
    assert_eq!(lines(&e), vec!["hello"]);
    assert_eq!(e.current_char, 6);
    assert!(e.modified);
    e.handle_key(Key::Char('\n'));
    assert_eq!(lines(&e), vec!["hello", ""]);
    assert_eq!(e.current_line, 2);
    assert_eq!(e.current_char, 1);
    e.handle_key(Key::Esc);
    assert_eq!(e.mode, Mode::Command);
}

#[test]
fn scenario_backspaces_down_to_empty_then_no_op() {
    let mut e = Editor::new(80, 24);
    e.load_text("hello");
    e.move_cursor_eocl();
    assert_eq!(e.current_line, 1);
    assert_eq!(e.current_char, 6);
    e.handle_key(Key::Char('i'));
    for _ in 0..5 {
        e.handle_key(Key::Backspace);
    }
    assert_eq!(lines(&e), vec![""]);
    assert_eq!(e.current_char, 1);
    e.modified = false;
    e.handle_key(Key::Backspace);
    assert_eq!(lines(&e), vec![""]);
    assert_eq!(e.current_line, 1);
    assert_eq!(e.current_char, 1);
    assert!(!e.modified);
}

#[test]
fn escape_in_command_mode_does_nothing() {
    let mut e = Editor::new(80, 24);
    e.handle_key(Key::Esc);
    assert_eq!(e.mode, Mode::Command);
    assert!(e.running);
    assert_eq!(e.handle_key(Key::Char(':')), KeyOutcome::ReadCommand);
    assert_eq!(e.mode, Mode::Command);
}

#[test]
fn enter_splits_at_cursor() {
    let mut e = Editor::new(80, 24);
    e.load_text("abcd\n");
    e.move_cursor_right();
    e.move_cursor_right();
    e.handle_key(Key::Char('i'));
    e.handle_key(Key::Char('\n'));
    assert_eq!(lines(&e), vec!["ab", "cd"]);
    assert_eq!((e.current_line, e.current_char), (2, 1));
}

#[test]
fn backspace_at_line_start_joins_with_line_above() {
    let mut e = Editor::new(80, 24);
    e.load_text("ab\ncd\n");
    e.move_cursor_down();
    e.handle_key(Key::Char('i'));
    e.handle_key(Key::Backspace);
    assert_eq!(lines(&e), vec!["abcd"]);
    assert_eq!((e.current_line, e.current_char), (1, 3));
    assert!(e.modified);
}

#[test]
fn typing_in_the_middle_of_a_line() {
    let mut e = Editor::new(80, 24);
    e.load_text("ac");
    e.move_cursor_right();
    e.handle_key(Key::Char('i'));
    typed(&mut e, "b");
    assert_eq!(lines(&e), vec!["abc"]);
    assert_eq!(e.current_char, 3);
}

#[test]
fn movement_keys_in_command_mode() {
    let mut e = Editor::new(80, 24);
    e.load_text("abc\nde\n");
    e.handle_key(Key::Char('l'));
    e.handle_key(Key::Char('l'));
    e.handle_key(Key::Char('l'));
    assert_eq!(e.current_char, 4);
    e.handle_key(Key::Char('l'));
    assert_eq!(e.current_char, 4);
    e.handle_key(Key::Char('j'));
    assert_eq!((e.current_line, e.current_char), (2, 3));
    e.handle_key(Key::Char('j'));
    assert_eq!(e.current_line, 2);
    e.handle_key(Key::Char('k'));
    assert_eq!((e.current_line, e.current_char), (1, 3));
    e.handle_key(Key::Char('k'));
    assert_eq!(e.current_line, 1);
    e.handle_key(Key::Char('h'));
    e.handle_key(Key::Char('h'));
    e.handle_key(Key::Char('h'));
    assert_eq!(e.current_char, 1);
    assert!(!e.modified);
}

#[test]
fn moving_past_the_view_scrolls() {
    let mut e = Editor::new(80, 5);
    e.load_text("a\nb\nc\n");
    assert_eq!(e.text_rows(), 2);
    e.move_cursor_down();
    assert_eq!((e.current_line, e.top_line(), e.y), (2, 1, 2));
    e.move_cursor_down();
    assert_eq!((e.current_line, e.top_line(), e.y), (3, 2, 2));
    assert!(e.top_line_changed);
    e.move_cursor_up();
    assert_eq!((e.current_line, e.top_line(), e.y), (2, 2, 1));
    e.move_cursor_up();
    assert_eq!((e.current_line, e.top_line(), e.y), (1, 1, 1));
}

#[test]
fn new_line_at_the_bottom_scrolls() {
    let mut e = Editor::new(80, 5);
    e.handle_key(Key::Char('i'));
    e.handle_key(Key::Char('\n'));
    assert_eq!((e.current_line, e.top_line()), (2, 1));
    e.handle_key(Key::Char('\n'));
    assert_eq!((e.current_line, e.top_line()), (3, 2));
    assert_eq!(e.buffer.len(), 3);
}

#[test]
fn set_top_line_moves_the_view() {
    let mut e = Editor::new(80, 24);
    e.load_text("a\nb\nc\n");
    e.move_cursor_down();
    e.move_cursor_down();
    e.set_top_line(2);
    assert_eq!(e.top_line(), 2);
    assert_eq!(e.y, 2);
}

#[test]
fn start_x_follows_the_line_count() {
    let mut e = Editor::new(80, 24);
    assert_eq!(e.start_x(), 3);
    assert_eq!(e.x, 3);
    e.load_text("1\n2\n3\n4\n5\n6\n7\n8\n9\n");
    assert_eq!(e.start_x(), 4);
    e.load_text("1\n2\n3\n4\n5\n6\n7\n8\n");
    assert_eq!(e.start_x(), 3);
}

#[test]
fn tab_reaches_the_next_tab_stop() {
    let mut e = Editor::new(80, 24);
    e.load_text("\tb");
    assert_eq!(e.x, 3);
    e.move_cursor_right();
    assert_eq!(e.x, 7);
    e.move_cursor_right();
    assert_eq!(e.x, 8);
    e.move_cursor_left();
    assert_eq!(e.x, 7);
    e.move_cursor_eocl();
    assert_eq!((e.current_char, e.x), (3, 8));
}

#[test]
fn cursor_moves_by_grapheme_cluster() {
    let mut e = Editor::new(80, 24);
    e.load_text("e\u{301}x");
    e.move_cursor_right();
    assert_eq!((e.current_char, e.x), (2, 4));
    e.move_cursor_right();
    e.move_cursor_right();
    assert_eq!(e.current_char, 3);
    e.handle_key(Key::Char('i'));
    e.move_cursor_left();
    e.handle_key(Key::Backspace);
    assert_eq!(lines(&e), vec!["x"]);
    assert_eq!(e.current_char, 1);
}

#[test]
fn combining_mark_joins_the_cluster_before_it() {
    let mut e = Editor::new(80, 24);
    e.handle_key(Key::Char('i'));
    typed(&mut e, "e\u{301}");
    assert_eq!(lines(&e), vec!["e\u{301}"]);
    assert_eq!(e.current_char, 2);
}

#[test]
fn mode_names() {
    assert_eq!(Mode::Command.name(), "COMMAND");
    assert_eq!(Mode::Insert.name(), "INSERT");
}
