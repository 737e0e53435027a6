use rydl::buffer::{Buffer, BufferError};

fn five_lines() -> Buffer {
    let mut buffer = Buffer::new(true);
    buffer.push(String::from("Line 1"));
    buffer.push(String::from("Line 2"));
    buffer.push(String::from("Line 3"));
    buffer.push(String::from("Line 4"));
    buffer.push(String::from("Line 5"));
    buffer
}

#[test]
fn replace_line_test() {
    let mut buffer = five_lines();

    buffer
        .replace_line(2, String::from("New line 2"))
        .expect("Could not replace line");
    buffer
        .replace_line(5, String::from("New line 5"))
        .expect("Could not replace line");

    assert_eq!("New line 2", buffer.get(2).unwrap());
    assert_eq!("New line 5", buffer.get(5).unwrap());
}

#[test]
fn new_buffer_holds_one_empty_line_or_none() {
    let b = Buffer::new(true);
    assert_eq!(b.len(), 1);
    assert_eq!(b.get(1).unwrap(), "");
    assert!(!b.is_empty());
    let e = Buffer::new(false);
    assert_eq!(e.len(), 0);
    assert!(e.is_empty());
    assert_eq!(e.get(1), None);
}

#[test]
fn get_is_one_indexed_and_bounded() {
    let b = five_lines();
    assert_eq!(b.len(), 6);
    assert_eq!(b.get(0), None);
    assert_eq!(b.get(1).unwrap(), "");
    assert_eq!(b.get(2).unwrap(), "Line 1");
    assert_eq!(b.get(6).unwrap(), "Line 5");
    assert_eq!(b.get(7), None);
    assert_eq!(b.last().unwrap(), "Line 5");
}

#[test]
fn get_mut_and_replace_line_address_the_line_get_reads() {
    let mut b = five_lines();
    b.get_mut(3).unwrap().push_str(" changed");
    assert_eq!(b.get(3).unwrap(), "Line 2 changed");
    b.replace_line(3, String::from("again")).unwrap();
    assert_eq!(b.get(3).unwrap(), "again");
    assert_eq!(b.get(2).unwrap(), "Line 1");
    assert_eq!(b.get(4).unwrap(), "Line 3");
    assert!(b.get_mut(0).is_none());
    assert!(b.get_mut(7).is_none());
    b.last_mut().unwrap().push('!');
    assert_eq!(b.get(6).unwrap(), "Line 5!");
}

#[test]
fn replace_line_out_of_range_leaves_buffer_unchanged() {
    let mut b = five_lines();
    assert_eq!(
        b.replace_line(0, String::from("x")),
        Err(BufferError::IndexOutOfRange)
    );
    assert_eq!(
        b.replace_line(7, String::from("x")),
        Err(BufferError::IndexOutOfRange)
    );
    let lines: Vec<String> = b.iter().cloned().collect();
    assert_eq!(lines, vec!["", "Line 1", "Line 2", "Line 3", "Line 4", "Line 5"]);
}

#[test]
fn insert_and_remove_are_bounds_checked() {
    let mut b = Buffer::new(true);
    assert_eq!(b.insert(3, String::from("x")), Err(BufferError::IndexOutOfRange));
    assert_eq!(b.insert(0, String::from("x")), Err(BufferError::IndexOutOfRange));
    b.insert(2, String::from("end")).unwrap();
    b.insert(1, String::from("start")).unwrap();
    let lines: Vec<String> = b.iter().cloned().collect();
    assert_eq!(lines, vec!["start", "", "end"]);
    assert_eq!(b.remove(4), Err(BufferError::IndexOutOfRange));
    assert_eq!(b.remove(0), Err(BufferError::IndexOutOfRange));
    assert_eq!(b.remove(2).unwrap(), "");
    assert_eq!(b.len(), 2);
    assert_eq!(b.pop().unwrap(), "end");
    assert_eq!(b.pop().unwrap(), "start");
    assert_eq!(b.pop(), None);
}

#[test]
fn set_replaces_all_lines() {
    let mut b = five_lines();
    b.set(vec![String::from("a"), String::from("b")]);
    let lines: Vec<String> = b.iter().cloned().collect();
    assert_eq!(lines, vec!["a", "b"]);
    b.set(Vec::new());
    let lines: Vec<String> = b.iter().cloned().collect();
    assert_eq!(lines, vec![""]);
}
