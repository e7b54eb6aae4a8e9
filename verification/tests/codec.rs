use rustudio::buffer::Buffer;
use rustudio::line::LineBuffer;

fn text(line: &LineBuffer) -> String {
    let mut out = String::new();
    let mut column = 0;
    while let Some(ch) = line.get_char_at(column) {
        out.push(*ch);
        column += 1;
    }
    out
}

fn lines(buffer: &Buffer) -> Vec<String> {
    let mut out = Vec::new();
    let mut row = 0;
    while let Some(line) = buffer.get_line_at(row) {
        out.push(text(line));
        row += 1;
    }
    out
}

#[test]
fn load_splits_the_stream_into_lines() {
    let buffer = Buffer::load(b"one\ntwo\nthree\n");
    assert_eq!(lines(&buffer), vec!["one", "two", "three", ""]);
    assert_eq!(buffer.count(), 4);
    assert_eq!(buffer.get_current_line_index(), Some(3));
    assert!(!buffer.is_saved());
    assert_eq!(buffer.file_name(), None);
}

#[test]
fn load_of_an_empty_stream_is_one_empty_line() {
    let mut buffer = Buffer::load(b"");
    assert_eq!(lines(&buffer), vec![""]);
    assert_eq!(buffer.save_buffer("empty.txt"), b"".to_vec());
}

#[test]
fn load_ends_a_last_line_without_line_feed() {
    let buffer = Buffer::load(b"one\ntwo");
    assert_eq!(lines(&buffer), vec!["one", "two", ""]);
}

#[test]
fn load_drops_carriage_returns() {
    let mut buffer = Buffer::load(b"a\r\nb\r\n\rc\r");
    assert_eq!(lines(&buffer), vec!["a", "b", "c", ""]);
    assert_eq!(buffer.save_buffer("unix.txt"), b"a\nb\nc\n".to_vec());
}

#[test]
fn load_keeps_empty_lines() {
    let mut buffer = Buffer::load(b"\n\na\n\n");
    assert_eq!(lines(&buffer), vec!["", "", "a", "", ""]);
    assert_eq!(buffer.save_buffer("blank.txt"), b"\n\na\n\n".to_vec());
}

#[test]
fn save_writes_a_line_feed_between_lines_only() {
    let mut buffer = Buffer::new();
    buffer.new_line();
    for ch in "ab\ncd\nef".chars() {
        buffer.put_char(ch);
    }
    assert_eq!(buffer.save_buffer("three.txt"), b"ab\ncd\nef".to_vec());
    assert!(buffer.is_saved());
    assert_eq!(buffer.file_name(), Some(&String::from("three.txt")));

    let mut one = Buffer::new();
    one.new_line();
    one.put_char('x');
    assert_eq!(one.save_buffer("one.txt"), b"x".to_vec());

    let mut none = Buffer::new();
    assert_eq!(none.save_buffer("none.txt"), Vec::<u8>::new());
    assert!(none.is_saved());
}

#[test]
fn save_does_not_depend_on_the_cursors() {
    let mut buffer = Buffer::load(b"abc\ndef\nghi\n");
    buffer.move_cursor(2, 1);
    assert_eq!(buffer.save_buffer("moved.txt"), b"abc\ndef\nghi\n".to_vec());
    buffer.move_cursor(0, 0);
    assert_eq!(buffer.save_buffer("moved.txt"), b"abc\ndef\nghi\n".to_vec());
}

#[test]
fn save_round_trip_with_trailing_line_feed() {
    let stream = b"first line\nsecond line\nthird line\n";
    let mut buffer = Buffer::load(stream);
    assert_eq!(buffer.count(), 4);
    assert_eq!(buffer.save_buffer("copy.txt"), stream.to_vec());
}

#[test]
fn save_round_trip_fails_without_trailing_line_feed() {
    let stream = b"first line\nsecond line\nthird line";
    let mut buffer = Buffer::load(stream);
    let saved = buffer.save_buffer("copy.txt");
    assert_ne!(saved, stream.to_vec());
    assert_eq!(saved, b"first line\nsecond line\nthird line\n".to_vec());
}

#[test]
fn bytes_and_characters_map_one_to_one() {
    let mut buffer = Buffer::load(&[0x41, 0xe9, 0xff, 0x00, 0x0a]);
    assert_eq!(lines(&buffer), vec!["A\u{e9}\u{ff}\u{0}", ""]);
    assert_eq!(buffer.save_buffer("latin.txt"), vec![0x41, 0xe9, 0xff, 0x00, 0x0a]);
}

#[test]
fn save_cuts_characters_down_to_one_byte() {
    let mut buffer = Buffer::new();
    buffer.new_line();
    buffer.put_char('\u{20ac}');
    buffer.put_char('\u{1f600}');
    buffer.put_char('z');
    assert_eq!(buffer.save_buffer("wide.txt"), vec![0xac, 0x00, 0x7a]);
}
