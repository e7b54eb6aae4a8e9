use rustudio::buffer::{delete_char, delete_line, put_char, seek_to_col, seek_to_line, Buffer};
use rustudio::line::LineBuffer;

fn text(line: &LineBuffer) -> String {
    let mut out = String::new();
    let mut column = 0;
    while let Some(ch) = line.get_char_at(column) {
        out.push(*ch);
        column += 1;
    }
    out
}

fn lines(buffer: &Buffer) -> Vec<String> {
    let mut out = Vec::new();
    let mut row = 0;
    while let Some(line) = buffer.get_line_at(row) {
        out.push(text(line));
        row += 1;
    }
    out
}

fn type_into(buffer: &mut Buffer, chars: &str) {
    for ch in chars.chars() {
        buffer.put_char(ch);
    }
}

fn typed(chars: &str) -> Buffer {
    let mut buffer = Buffer::new();
    buffer.new_line();
    type_into(&mut buffer, chars);
    buffer
}

#[test]
fn new_document_is_empty() {
    let buffer = Buffer::new();
    assert!(buffer.is_empty());
    assert_eq!(buffer.count(), 0);
    assert!(buffer.get_current_line().is_none());
    assert_eq!(buffer.get_current_line_index(), None);
    assert_eq!(buffer.get_cursor_index(), None);
    assert!(buffer.get_line_at(0).is_none());
    assert!(!buffer.is_saved());
    assert_eq!(buffer.file_name(), None);
}

#[test]
fn document_with_capacity_is_empty() {
    let mut buffer = Buffer::with_capacity(0);
    assert!(buffer.is_empty());
    buffer.new_line();
    buffer.new_line();
    assert_eq!(buffer.count(), 2);
}

#[test]
fn typing_two_lines() {
    let mut buffer = typed("ab\ncd");
    assert_eq!(buffer.count(), 2);
    assert_eq!(lines(&buffer), vec!["ab", "cd"]);
    assert_eq!(buffer.get_current_line_index(), Some(1));
    assert_eq!(buffer.get_current_line().map(text), Some(String::from("cd")));
    assert_eq!(buffer.get_cursor_index(), Some((1, 1)));

    buffer.move_cursor(0, 0);
    assert_eq!(lines(&buffer), vec!["ab", "cd"]);
    assert_eq!(buffer.get_line_at(0).map(text), Some(String::from("ab")));
    assert!(buffer.get_current_line().is_none());
    assert_eq!(buffer.get_current_line_index(), None);

    buffer.move_cursor(1, 0);
    assert_eq!(buffer.get_current_line_index(), Some(0));
    assert_eq!(buffer.get_current_line().map(text), Some(String::from("ab")));
    assert_eq!(buffer.get_current_line().map(LineBuffer::get_caret), Some(0));
}

#[test]
fn characters_typed_before_the_first_line_are_dropped() {
    let mut buffer = Buffer::new();
    type_into(&mut buffer, "ab\ncd");
    assert_eq!(buffer.count(), 1);
    assert_eq!(lines(&buffer), vec!["cd"]);
    assert!(!buffer.is_saved());
}

#[test]
fn carriage_return_is_dropped() {
    let buffer = typed("a\r\nb\rc");
    assert_eq!(lines(&buffer), vec!["a", "bc"]);
}

#[test]
fn line_feed_starts_an_empty_line_at_the_cursor() {
    let mut buffer = typed("one\ntwo\nthree");
    buffer.move_cursor(1, 2);
    buffer.put_char('\n');
    assert_eq!(lines(&buffer), vec!["one", "", "two", "three"]);
    assert_eq!(buffer.get_current_line_index(), Some(1));
    type_into(&mut buffer, "new");
    assert_eq!(lines(&buffer), vec!["one", "new", "two", "three"]);
}

#[test]
fn new_line_becomes_the_current_line() {
    let mut buffer = Buffer::new();
    buffer.new_line();
    assert_eq!(buffer.count(), 1);
    assert_eq!(buffer.get_current_line_index(), Some(0));
    assert_eq!(buffer.get_current_line().map(LineBuffer::count), Some(0));
    assert_eq!(buffer.get_cursor_index(), None);
    buffer.put_char('x');
    assert_eq!(buffer.get_cursor_index(), Some((0, 0)));
}

#[test]
fn document_seek_clamps_to_the_last_line() {
    let mut buffer = typed("a\nb\nc");
    assert_eq!(buffer.get_current_line_index(), Some(2));
    buffer.seek(3);
    assert_eq!(buffer.get_current_line_index(), Some(1));
    buffer.seek(100);
    assert_eq!(buffer.get_current_line_index(), Some(1));
    buffer.seek(0);
    assert_eq!(buffer.get_current_line_index(), None);
    assert_eq!(lines(&buffer), vec!["a", "b", "c"]);
}

#[test]
fn seek_in_an_empty_document_changes_nothing() {
    let mut buffer = Buffer::new();
    buffer.seek(4);
    buffer.move_cursor(2, 2);
    assert!(buffer.is_empty());
    assert_eq!(buffer.get_current_line_index(), None);
}

#[test]
fn move_cursor_clamps_the_column() {
    let mut buffer = typed("hello\nhi");
    buffer.move_cursor(1, 3);
    assert_eq!(buffer.get_cursor_index(), Some((0, 2)));
    buffer.move_cursor(1, 99);
    assert_eq!(buffer.get_cursor_index(), Some((0, 3)));
    assert_eq!(buffer.get_current_line().map(LineBuffer::get_caret), Some(4));
    buffer.move_cursor(1, 0);
    assert_eq!(buffer.get_cursor_index(), None);
    assert_eq!(lines(&buffer), vec!["hello", "hi"]);
}

#[test]
fn typing_goes_in_at_both_cursors() {
    let mut buffer = typed("hello\nworld");
    buffer.move_cursor(1, 2);
    type_into(&mut buffer, "XY");
    assert_eq!(lines(&buffer), vec!["heXYllo", "world"]);
    assert_eq!(buffer.get_cursor_index(), Some((0, 3)));
}

#[test]
fn document_delete_removes_the_current_line() {
    let mut buffer = typed("a\nb\nc");
    buffer.delete();
    assert_eq!(lines(&buffer), vec!["a", "b"]);
    buffer.seek(1);
    buffer.delete();
    assert_eq!(lines(&buffer), vec!["b"]);
    assert_eq!(buffer.get_current_line_index(), None);
    buffer.delete();
    assert_eq!(lines(&buffer), vec!["b"]);
}

#[test]
fn delete_on_an_empty_document_changes_nothing() {
    let mut buffer = Buffer::new();
    buffer.delete();
    assert!(buffer.is_empty());
    assert_eq!(buffer.count(), 0);
    assert_eq!(buffer.get_current_line_index(), None);
}

#[test]
fn get_mut_line_at_edits_in_place() {
    let mut buffer = typed("ab\ncd");
    if let Some(line) = buffer.get_mut_line_at(0) {
        line.seek(1);
        line.insert('-');
    }
    assert!(buffer.get_mut_line_at(2).is_none());
    assert_eq!(lines(&buffer), vec!["a-b", "cd"]);
    if let Some(line) = buffer.get_mut_current_line() {
        line.delete();
    }
    assert_eq!(lines(&buffer), vec!["a-b", "c"]);
    buffer.seek(0);
    assert!(buffer.get_mut_current_line().is_none());
}

#[test]
fn free_functions_seek_like_the_methods() {
    let mut buffer = typed("abc\ndef\nghi");
    seek_to_line(&mut buffer, 2);
    assert_eq!(buffer.get_current_line_index(), Some(1));
    seek_to_col(&mut buffer, 1, 2);
    assert_eq!(buffer.get_cursor_index(), Some((0, 1)));
    put_char(&mut buffer, '!');
    assert_eq!(lines(&buffer), vec!["ab!c", "def", "ghi"]);
}

#[test]
fn delete_line_removes_the_line_before_the_row() {
    let mut buffer = typed("a\nb\nc");
    delete_line(&mut buffer, 1);
    assert_eq!(lines(&buffer), vec!["b", "c"]);
    assert_eq!(buffer.get_current_line_index(), None);
    delete_line(&mut buffer, 0);
    assert_eq!(lines(&buffer), vec!["b", "c"]);
    delete_line(&mut buffer, 7);
    assert_eq!(lines(&buffer), vec!["c"]);
}

#[test]
fn delete_char_removes_the_character_before_the_column() {
    let mut buffer = typed("abc\ndef");
    delete_char(&mut buffer, 1, 2);
    assert_eq!(lines(&buffer), vec!["ac", "def"]);
    assert_eq!(buffer.get_cursor_index(), Some((0, 0)));
    delete_char(&mut buffer, 1, 0);
    assert_eq!(lines(&buffer), vec!["ac", "def"]);
    delete_char(&mut buffer, 0, 1);
    assert_eq!(lines(&buffer), vec!["ac", "def"]);
}

#[test]
fn edits_mark_the_document_as_not_saved() {
    let mut buffer = typed("ab");
    buffer.save_buffer("first.txt");
    assert!(buffer.is_saved());
    buffer.put_char('\r');
    assert!(buffer.is_saved());
    buffer.seek(0);
    buffer.delete();
    buffer.move_cursor(1, 1);
    assert!(buffer.is_saved());
    buffer.put_char('c');
    assert!(!buffer.is_saved());

    buffer.save_buffer("first.txt");
    buffer.new_line();
    assert!(!buffer.is_saved());

    buffer.save_buffer("first.txt");
    buffer.delete();
    assert!(!buffer.is_saved());

    buffer.save_buffer("first.txt");
    delete_line(&mut buffer, 0);
    assert!(!buffer.is_saved());

    buffer.save_buffer("first.txt");
    delete_char(&mut buffer, 0, 0);
    assert!(!buffer.is_saved());
    assert_eq!(buffer.file_name(), Some(&String::from("first.txt")));
}

#[test]
fn document_apply_to_all_maps_every_line() {
    let mut buffer = typed("ab\ncd\nef");
    buffer.save_buffer("kept.txt");
    buffer.seek(2);
    let upper = buffer.apply_to_all(&|line: &LineBuffer| {
        line.apply_to_all(&|ch: &char| ch.to_ascii_uppercase())
    });
    assert_eq!(lines(&upper), vec!["AB", "CD", "EF"]);
    assert_eq!(upper.get_current_line_index(), Some(1));
    assert_eq!(upper.file_name(), Some(&String::from("kept.txt")));
    assert!(!upper.is_saved());
    assert_eq!(lines(&buffer), vec!["ab", "cd", "ef"]);
}

#[test]
fn document_for_each_visits_every_line_in_order() {
    let mut buffer = typed("x\nyy\nzzz");
    buffer.seek(1);
    let mut seen = Vec::new();
    buffer.for_each(&mut |line: &LineBuffer| {
        let mut chars = String::new();
        line.for_each(&mut |ch: &char| chars.push(*ch));
        seen.push(chars);
    });
    assert_eq!(seen, vec!["x", "yy", "zzz"]);
}

#[test]
fn many_lines_grow_the_document() {
    let mut buffer = Buffer::with_capacity(2);
    for row in 0..1500u32 {
        buffer.new_line();
        for ch in row.to_string().chars() {
            buffer.put_char(ch);
        }
    }
    assert_eq!(buffer.count(), 1500);
    for row in 0..1500usize {
        assert_eq!(buffer.get_line_at(row).map(text), Some(row.to_string()));
    }
}
