use rydl::buffer::Buffer;
use rydl::io::lines_from_text;

fn buffer_of(lines: &[&str]) -> Buffer {
    let mut b = Buffer::new(false);
    for l in lines {
        b.push(l.to_string());
    }
    b
}

#[test]
fn save_then_load_gives_the_same_lines() {
    for lines in [
        vec![""],
        vec!["", ""],
        vec!["a"],
        vec!["a", ""],
        vec!["one", "two", "", "four"],
        vec!["tab\there", "  spaced  "],
    ] {
        let text = buffer_of(&lines).to_text();
        assert_eq!(lines_from_text(&text), lines);
    }
}

#[test]
fn empty_file_loads_as_one_empty_line() {
    assert_eq!(lines_from_text(""), vec![""]);
    assert_eq!(buffer_of(&[""]).to_text(), "");
}

#[test]
fn text_form_of_lines() {
    assert_eq!(buffer_of(&["a", "b"]).to_text(), "a\nb\n");
    assert_eq!(buffer_of(&["", ""]).to_text(), "\n\n");
    assert_eq!(lines_from_text("a\nb"), vec!["a", "b"]);
    assert_eq!(lines_from_text("a\nb\n"), vec!["a", "b"]);
    assert_eq!(lines_from_text("\n"), vec![""]);
    assert_eq!(lines_from_text("a\n\n"), vec!["a", ""]);
    assert_eq!(lines_from_text("a\r\nb"), vec!["a\r", "b"]);
}
