use rustudio::buffer::Buffer;
use rustudio::engine::{Action, Engine, BACKSPACE, ESC};
use rustudio::line::LineBuffer;

fn text(line: &LineBuffer) -> String {
    let mut out = String::new();
    let mut column = 0;
    while let Some(ch) = line.get_char_at(column) {
        out.push(*ch);
        column += 1;
    }
    out
}

fn lines(buffer: &Buffer) -> Vec<String> {
    let mut out = Vec::new();
    let mut row = 0;
    while let Some(line) = buffer.get_line_at(row) {
        out.push(text(line));
        row += 1;
    }
    out
}

fn press(engine: &mut Engine, keys: &str) -> Vec<Action> {
    keys.chars().map(|key| engine.input(key)).collect()
}

fn editing(typed: &str) -> Engine {
    let mut engine = Engine::new();
    engine.input('O');
    engine.input(BACKSPACE);
    engine.input('i');
    press(&mut engine, typed);
    engine.input(ESC);
    engine
}

#[test]
fn new_engine_has_an_empty_buffer() {
    let engine = Engine::new();
    assert!(engine.buffer().is_empty());
    assert!(!engine.buffer().is_saved());
}

#[test]
fn keys_in_normal_mode_are_not_typed() {
    let mut engine = Engine::new();
    engine.input('O');
    engine.input(BACKSPACE);
    let actions = press(&mut engine, "xyz");
    assert!(actions.iter().all(|action| matches!(action, Action::Continue)));
    assert_eq!(lines(engine.buffer()), vec![""]);
}

#[test]
fn insert_mode_types_into_the_current_line() {
    let engine = editing("hello\nworld");
    assert_eq!(lines(engine.buffer()), vec!["hello", "world"]);
    assert_eq!(engine.buffer().get_cursor_index(), Some((1, 4)));
}

#[test]
fn escape_leads_back_to_normal_mode() {
    let mut engine = editing("ab");
    press(&mut engine, "zz");
    assert_eq!(lines(engine.buffer()), vec!["ab"]);
}

#[test]
fn open_line_keeps_its_key_in_the_command() {
    let mut engine = Engine::new();
    engine.input('O');
    assert_eq!(engine.buffer().count(), 1);
    engine.input('i');
    engine.input('x');
    assert_eq!(lines(engine.buffer()), vec![""]);
    engine.input(BACKSPACE);
    engine.input(BACKSPACE);
    engine.input(BACKSPACE);
    engine.input('i');
    engine.input('x');
    assert_eq!(lines(engine.buffer()), vec!["x"]);
}

#[test]
fn backspace_takes_back_one_key_of_a_command() {
    let mut engine = editing("ab");
    let actions = press(&mut engine, ":x");
    assert!(actions.iter().all(|action| matches!(action, Action::Continue)));
    engine.input(BACKSPACE);
    let actions = press(&mut engine, "q\n");
    assert!(matches!(actions[0], Action::Continue));
    assert!(matches!(actions[1], Action::Quit));
}

#[test]
fn write_command_asks_for_the_write() {
    let mut engine = editing("ab\ncd");
    let actions = press(&mut engine, ":w\n");
    assert!(matches!(actions[0], Action::Continue));
    assert!(matches!(actions[1], Action::Continue));
    assert!(matches!(actions[2], Action::Write));
    assert!(!engine.buffer().is_saved());
    assert_eq!(engine.write_buffer("notes.txt"), b"ab\ncd".to_vec());
    assert!(engine.buffer().is_saved());
    assert_eq!(engine.buffer().file_name(), Some(&String::from("notes.txt")));
    let actions = press(&mut engine, ":q\n");
    assert!(matches!(actions[2], Action::Quit));
}

#[test]
fn left_and_right_move_the_column() {
    let mut engine = editing("abc\ndef");
    assert_eq!(engine.buffer().get_cursor_index(), Some((1, 2)));
    engine.input('h');
    assert_eq!(engine.buffer().get_cursor_index(), Some((0, 0)));
    engine.input('l');
    assert_eq!(engine.buffer().get_cursor_index(), None);
    assert_eq!(engine.buffer().get_current_line_index(), None);
    engine.input('h');
    engine.input('l');
    assert_eq!(engine.buffer().get_cursor_index(), None);
    assert_eq!(lines(engine.buffer()), vec!["abc", "def"]);
}

#[test]
fn left_in_the_first_row_leaves_no_current_line() {
    let mut engine = editing("abcd");
    assert_eq!(engine.buffer().get_cursor_index(), Some((0, 3)));
    engine.input('h');
    assert_eq!(engine.buffer().get_cursor_index(), None);
    assert_eq!(engine.buffer().get_current_line_index(), None);
    assert_eq!(lines(engine.buffer()), vec!["abcd"]);
}

#[test]
fn up_and_down_move_the_row() {
    let mut engine = editing("a\nb\nc\nd");
    assert_eq!(engine.buffer().get_cursor_index(), Some((3, 0)));
    engine.input('k');
    assert_eq!(engine.buffer().get_current_line_index(), Some(1));
    engine.input('j');
    assert_eq!(engine.buffer().get_current_line_index(), Some(1));
    assert_eq!(lines(engine.buffer()), vec!["a", "b", "c", "d"]);
}

#[test]
fn open_line_above_opens_a_line_after_moving_up() {
    let mut engine = editing("a\nb\nc");
    assert_eq!(engine.buffer().get_cursor_index(), Some((2, 0)));
    engine.input('o');
    assert_eq!(lines(engine.buffer()), vec!["a", "", "b", "c"]);
    assert_eq!(engine.buffer().get_current_line_index(), Some(1));
    assert!(!engine.buffer().is_saved());
}

#[test]
fn open_line_below_opens_a_line_at_the_cursor() {
    let mut engine = editing("a\nb");
    engine.input('O');
    assert_eq!(lines(engine.buffer()), vec!["a", "b", ""]);
    assert_eq!(engine.buffer().get_current_line_index(), Some(2));
}
