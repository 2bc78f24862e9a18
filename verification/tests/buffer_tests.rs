use crab_editor::EditError;
use crab_editor::Position;
use crab_editor::TextBuffer;

fn buf(lines: &[&str]) -> TextBuffer {
    TextBuffer { lines: lines.iter().map(|s| s.chars().collect()).collect() }
}

fn strings(b: &TextBuffer) -> Vec<String> {
    b.lines.iter().map(|l| l.iter().collect()).collect()
}

fn pos(x: u16, y: u16) -> Position {
    Position { x, y }
}

#[test]
fn insert_char_into_line() {
    let mut b = buf(&["hello"]);
    assert_eq!(b.insert_char(pos(2, 0), 'X'), Ok(()));
    assert_eq!(strings(&b), vec!["heXllo"]);
}

#[test]
fn insert_char_appends_line_one_past_end() {
    let mut b = buf(&["hello"]);
    assert_eq!(b.insert_char(pos(0, 1), 'X'), Ok(()));
    assert_eq!(strings(&b), vec!["hello", "X"]);
}

#[test]
fn insert_char_row_too_far_fails() {
    let mut b = buf(&["hello"]);
    assert_eq!(b.insert_char(pos(0, 2), 'X'), Err(EditError::OutOfRange));
    assert_eq!(strings(&b), vec!["hello"]);
}

#[test]
fn insert_char_column_beyond_line_fails() {
    let mut b = buf(&["hi"]);
    assert_eq!(b.insert_char(pos(3, 0), 'X'), Err(EditError::OutOfRange));
    assert_eq!(strings(&b), vec!["hi"]);
}

#[test]
fn insert_char_into_empty_buffer_creates_line() {
    let mut b = TextBuffer::new();
    assert_eq!(b.insert_char(pos(0, 0), 'a'), Ok(()));
    assert_eq!(strings(&b), vec!["a"]);
}

#[test]
fn split_line_in_middle() {
    let mut b = buf(&["hello", "world"]);
    assert_eq!(b.split_line(pos(2, 0)), Ok(()));
    assert_eq!(strings(&b), vec!["he", "llo", "world"]);
}

#[test]
fn split_line_bad_row_fails() {
    let mut b = buf(&["hello"]);
    assert_eq!(b.split_line(pos(0, 1)), Err(EditError::OutOfRange));
    assert_eq!(strings(&b), vec!["hello"]);
}

#[test]
fn split_line_bad_column_fails() {
    let mut b = buf(&["hi"]);
    assert_eq!(b.split_line(pos(3, 0)), Err(EditError::OutOfRange));
    assert_eq!(strings(&b), vec!["hi"]);
}

#[test]
fn join_line_appends_to_previous() {
    let mut b = buf(&["hello", "world", "rest"]);
    assert_eq!(b.join_line(1), Ok(()));
    assert_eq!(strings(&b), vec!["helloworld", "rest"]);
}

#[test]
fn join_line_row_zero_fails() {
    let mut b = buf(&["hello"]);
    assert_eq!(b.join_line(0), Err(EditError::OutOfRange));
    assert_eq!(strings(&b), vec!["hello"]);
}

#[test]
fn delete_char_before_in_line() {
    let mut b = buf(&["hello"]);
    assert_eq!(b.delete_char_before(pos(3, 0)), Ok(pos(2, 0)));
    assert_eq!(strings(&b), vec!["helo"]);
}

#[test]
fn delete_char_before_at_origin_is_noop() {
    let mut b = buf(&["hello"]);
    assert_eq!(b.delete_char_before(pos(0, 0)), Ok(pos(0, 0)));
    assert_eq!(strings(&b), vec!["hello"]);
}

#[test]
fn delete_char_before_at_line_start_joins() {
    let mut b = buf(&["hello", "world"]);
    assert_eq!(b.delete_char_before(pos(0, 1)), Ok(pos(5, 0)));
    assert_eq!(strings(&b), vec!["helloworld"]);
}

#[test]
fn delete_char_before_column_beyond_line_fails() {
    let mut b = buf(&["hi"]);
    assert_eq!(b.delete_char_before(pos(3, 0)), Err(EditError::OutOfRange));
    assert_eq!(strings(&b), vec!["hi"]);
}

#[test]
fn insert_then_delete_restores_line() {
    let mut b = buf(&["hello"]);
    assert_eq!(b.insert_char(pos(2, 0), 'Z'), Ok(()));
    assert_eq!(strings(&b), vec!["heZllo"]);
    // Deleting the character immediately after the insertion point restores
    // the original content.
    assert_eq!(b.delete_char_before(pos(3, 0)), Ok(pos(2, 0)));
    assert_eq!(strings(&b), vec!["hello"]);
}

#[test]
fn buffer_stays_nonempty_over_a_sequence_of_operations() {
    let mut b = buf(&["start"]);
    assert_eq!(b.insert_char(pos(5, 0), '!'), Ok(()));
    assert!(b.line_count() >= 1);
    assert_eq!(b.split_line(pos(3, 0)), Ok(()));
    assert!(b.line_count() >= 1);
    assert_eq!(b.delete_char_before(pos(0, 1)), Ok(pos(3, 0)));
    assert!(b.line_count() >= 1);
    assert_eq!(b.delete_char_before(pos(0, 0)), Ok(pos(0, 0)));
    assert!(b.line_count() >= 1);
    assert_eq!(strings(&b), vec!["start!"]);
}
