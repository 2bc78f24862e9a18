use crab_editor::EditError;
use crab_editor::Editor;
use crab_editor::KeyInput;
use crab_editor::Position;
use crab_editor::ScreenRow;
use crab_editor::Size;
use crab_editor::Terminal;
use crab_editor::TextBuffer;
use crab_editor::viewport::settle;

fn buf(lines: &[&str]) -> TextBuffer {
    TextBuffer { lines: lines.iter().map(|s| s.chars().collect()).collect() }
}

fn strings(b: &TextBuffer) -> Vec<String> {
    b.lines.iter().map(|l| l.iter().collect()).collect()
}

fn captured_strings(t: &Terminal) -> Vec<String> {
    t.viz_mode_buffer.iter().map(|l| l.iter().collect()).collect()
}

fn pos(x: u16, y: u16) -> Position {
    Position { x, y }
}

fn term(lines: &[&str], cursor: Position, height: u16, width: u16) -> Terminal {
    let mut t = Terminal::default();
    t.buffer = buf(lines);
    t.curr_pos = cursor;
    t.t_size = Size { height, width };
    t
}

#[test]
fn enter_at_end_of_line_appends_empty_line() {
    let mut t = term(&["abc"], pos(3, 0), 10, 10);
    assert_eq!(t.move_cursor(KeyInput::Enter), Ok(()));
    assert_eq!(strings(&t.buffer), vec!["abc", ""]);
    assert_eq!(t.curr_pos, pos(0, 1));
}

#[test]
fn backspace_at_line_start_joins_lines() {
    let mut t = term(&["hello", "world"], pos(0, 1), 10, 10);
    assert_eq!(t.move_cursor(KeyInput::Backspace), Ok(()));
    assert_eq!(strings(&t.buffer), vec!["helloworld"]);
    assert_eq!(t.curr_pos, pos(5, 0));
}

#[test]
fn scroll_offset_follows_cursor_below_viewport() {
    let mut t = term(&["line1", "line2", "line3"], pos(0, 0), 2, 10);
    assert_eq!(t.move_cursor(KeyInput::Down), Ok(()));
    assert_eq!(t.curr_pos, pos(0, 1));
    assert_eq!(t.scroll_offest.y, 0);
    assert_eq!(t.move_cursor(KeyInput::Down), Ok(()));
    assert_eq!(t.curr_pos, pos(0, 2));
    // Row 2 must be the last visible row of the two-row viewport.
    assert_eq!(t.scroll_offest.y, 1);
}

#[test]
fn selection_captures_across_lines() {
    let mut t = term(&["hello", "world"], pos(2, 0), 10, 10);
    assert_eq!(t.move_cursor(KeyInput::Alt('v')), Ok(()));
    assert!(t.viz_mode);
    assert_eq!(t.viz_org_cursor_pos, pos(2, 0));
    assert_eq!(t.move_cursor(KeyInput::Down), Ok(()));
    assert_eq!(t.move_cursor(KeyInput::Right), Ok(()));
    assert_eq!(t.viz_cursor_pos, pos(3, 1));
    assert_eq!(t.move_cursor(KeyInput::Ctrl('c')), Ok(()));
    assert_eq!(captured_strings(&t), vec!["llo", "wor"]);
    // The buffer itself is untouched and the edit cursor never moved.
    assert_eq!(strings(&t.buffer), vec!["hello", "world"]);
    assert_eq!(t.curr_pos, pos(2, 0));
}

#[test]
fn move_down_on_last_row_splits_line() {
    let mut t = term(&["abcd"], pos(2, 0), 10, 10);
    assert_eq!(t.move_cursor(KeyInput::Down), Ok(()));
    assert_eq!(strings(&t.buffer), vec!["ab", "cd"]);
    assert_eq!(t.curr_pos, pos(0, 1));
}

#[test]
fn move_left_at_origin_is_noop() {
    let mut t = term(&["abc"], pos(0, 0), 10, 10);
    assert_eq!(t.move_cursor(KeyInput::Left), Ok(()));
    assert_eq!(t.curr_pos, pos(0, 0));
    assert_eq!(strings(&t.buffer), vec!["abc"]);
}

#[test]
fn move_right_at_end_of_last_line_is_noop() {
    let mut t = term(&["ab", "cde"], pos(3, 1), 10, 10);
    assert_eq!(t.move_cursor(KeyInput::Right), Ok(()));
    assert_eq!(t.curr_pos, pos(3, 1));
    assert_eq!(strings(&t.buffer), vec!["ab", "cde"]);
}

#[test]
fn move_left_wraps_to_end_of_previous_line() {
    let mut t = term(&["hello", "world"], pos(0, 1), 10, 10);
    assert_eq!(t.move_cursor(KeyInput::Left), Ok(()));
    assert_eq!(t.curr_pos, pos(5, 0));
}

#[test]
fn move_right_wraps_to_start_of_next_line() {
    let mut t = term(&["ab", "cd"], pos(2, 0), 10, 10);
    assert_eq!(t.move_cursor(KeyInput::Right), Ok(()));
    assert_eq!(t.curr_pos, pos(0, 1));
}

#[test]
fn move_up_keeps_column_even_past_shorter_line() {
    let mut t = term(&["a", "world"], pos(4, 1), 10, 10);
    assert_eq!(t.move_cursor(KeyInput::Up), Ok(()));
    assert_eq!(t.curr_pos, pos(4, 0));
}

#[test]
fn settle_twice_gives_same_offset() {
    let once = settle(5, 2, 10, 3);
    let twice = settle(once, 2, 10, 3);
    assert_eq!(once, twice);
    let once = settle(0, 9, 10, 3);
    let twice = settle(once, 9, 10, 3);
    assert_eq!(once, twice);
}

#[test]
fn insert_char_advances_cursor() {
    let mut t = term(&["hllo"], pos(1, 0), 10, 10);
    assert_eq!(t.insert_char('e'), Ok(()));
    assert_eq!(strings(&t.buffer), vec!["hello"]);
    assert_eq!(t.curr_pos, pos(2, 0));
}

#[test]
fn typing_dispatches_through_move_cursor() {
    let mut t = term(&[""], pos(0, 0), 10, 10);
    assert_eq!(t.move_cursor(KeyInput::Char('h')), Ok(()));
    assert_eq!(t.move_cursor(KeyInput::Char('i')), Ok(()));
    assert_eq!(strings(&t.buffer), vec!["hi"]);
    assert_eq!(t.curr_pos, pos(2, 0));
}

#[test]
fn insert_at_drifted_column_fails_without_change() {
    // Moving up can leave the column beyond the shorter line above; typing
    // there is refused instead of aborting.
    let mut t = term(&["a", "world"], pos(4, 1), 10, 10);
    assert_eq!(t.move_cursor(KeyInput::Up), Ok(()));
    assert_eq!(t.curr_pos, pos(4, 0));
    assert_eq!(t.move_cursor(KeyInput::Char('x')), Err(EditError::OutOfRange));
    assert_eq!(strings(&t.buffer), vec!["a", "world"]);
    assert_eq!(t.curr_pos, pos(4, 0));
}

#[test]
fn copy_with_column_beyond_line_fails() {
    let mut t = term(&["hi", "yo"], pos(0, 0), 10, 10);
    assert_eq!(t.copy_to_buffer(pos(0, 0), pos(9, 1)), Err(EditError::InvalidRange));
    assert!(t.viz_mode_buffer.is_empty());
}

#[test]
fn copy_with_row_out_of_bounds_fails() {
    let mut t = term(&["hi"], pos(0, 0), 10, 10);
    assert_eq!(t.copy_to_buffer(pos(0, 0), pos(0, 5)), Err(EditError::InvalidRange));
}

#[test]
fn copy_same_row_uses_column_order() {
    let mut t = term(&["hello"], pos(0, 0), 10, 10);
    assert_eq!(t.copy_to_buffer(pos(4, 0), pos(1, 0)), Ok(()));
    assert_eq!(captured_strings(&t), vec!["ell"]);
}

#[test]
fn copy_normalizes_reversed_rows() {
    let mut t = term(&["hello", "world"], pos(0, 0), 10, 10);
    // The moving cursor sits before the anchor; extraction still runs in
    // document order.
    assert_eq!(t.copy_to_buffer(pos(3, 1), pos(2, 0)), Ok(()));
    assert_eq!(captured_strings(&t), vec!["llo", "wor"]);
}

#[test]
fn paste_inserts_fragments_and_appends_overflow() {
    let mut t = term(&["ab"], pos(0, 0), 10, 10);
    t.viz_mode = true;
    t.viz_cursor_pos = pos(2, 0);
    t.viz_org_cursor_pos = pos(0, 0);
    t.viz_mode_buffer = vec![vec!['x'], vec!['y'], vec!['z']];
    assert_eq!(t.paste_captured(), Ok(()));
    assert_eq!(strings(&t.buffer), vec!["abx", "y", "z"]);
}

#[test]
fn paste_merges_into_existing_lines() {
    let mut t = term(&["hello", "world"], pos(0, 0), 10, 10);
    t.viz_mode = true;
    t.viz_cursor_pos = pos(1, 0);
    t.viz_mode_buffer = vec![vec!['l', 'l', 'o'], vec!['w', 'o', 'r']];
    assert_eq!(t.paste_captured(), Ok(()));
    assert_eq!(strings(&t.buffer), vec!["hlloello", "wwororld"]);
}

#[test]
fn paste_with_column_beyond_target_fails_without_change() {
    let mut t = term(&["hello", "x"], pos(0, 0), 10, 10);
    t.viz_mode = true;
    t.viz_cursor_pos = pos(2, 0);
    t.viz_mode_buffer = vec![vec!['a'], vec!['b']];
    // The second fragment would land at column 2 of the one-column line.
    assert_eq!(t.paste_captured(), Err(EditError::OutOfRange));
    assert_eq!(strings(&t.buffer), vec!["hello", "x"]);
}

#[test]
fn leaving_selection_mode_clears_capture() {
    let mut t = term(&["hello"], pos(0, 0), 10, 10);
    assert_eq!(t.move_cursor(KeyInput::Alt('v')), Ok(()));
    assert_eq!(t.move_cursor(KeyInput::Right), Ok(()));
    assert_eq!(t.move_cursor(KeyInput::Ctrl('c')), Ok(()));
    assert_eq!(captured_strings(&t), vec!["h"]);
    assert_eq!(t.move_cursor(KeyInput::Enter), Ok(()));
    assert!(!t.viz_mode);
    assert!(t.viz_mode_buffer.is_empty());
    // The buffer was never touched by selection-mode movement or copying.
    assert_eq!(strings(&t.buffer), vec!["hello"]);
}

#[test]
fn typing_in_selection_mode_is_ignored() {
    let mut t = term(&["hello"], pos(0, 0), 10, 10);
    assert_eq!(t.move_cursor(KeyInput::Alt('v')), Ok(()));
    assert_eq!(t.move_cursor(KeyInput::Char('x')), Ok(()));
    assert_eq!(strings(&t.buffer), vec!["hello"]);
}

#[test]
fn draw_rows_truncates_and_marks_cursor() {
    let t = term(&["hello", "hi", "worlds"], pos(1, 1), 2, 4);
    let f = t.draw_rows(t.curr_pos);
    assert_eq!(f.rows.len(), 2);
    assert_eq!(f.rows[0], ScreenRow::Line("hell".chars().collect()));
    assert_eq!(f.rows[1], ScreenRow::Line("hi".chars().collect()));
    assert_eq!(f.marker, Some(pos(1, 1)));
}

#[test]
fn draw_rows_shows_placeholder_past_end() {
    let t = term(&["only"], pos(0, 0), 3, 10);
    let f = t.draw_rows(t.curr_pos);
    assert_eq!(f.rows.len(), 3);
    assert_eq!(f.rows[0], ScreenRow::Line("only".chars().collect()));
    assert_eq!(f.rows[1], ScreenRow::Placeholder);
    assert_eq!(f.rows[2], ScreenRow::Placeholder);
    assert_eq!(f.marker, Some(pos(0, 0)));
}

#[test]
fn draw_rows_hides_marker_outside_viewport() {
    let mut t = term(&["a", "b", "c"], pos(0, 0), 1, 10);
    t.scroll_offest.y = 2;
    let f = t.draw_rows(t.curr_pos);
    assert_eq!(f.rows.len(), 1);
    assert_eq!(f.marker, None);
}

#[test]
fn draw_rows_hides_marker_beyond_buffer() {
    // The cursor position handed to the renderer may point past the last
    // line; no marker is placed over a placeholder row.
    let t = term(&["only"], pos(0, 0), 3, 10);
    let f = t.draw_rows(pos(0, 2));
    assert_eq!(f.rows.len(), 3);
    assert_eq!(f.rows[1], ScreenRow::Placeholder);
    assert_eq!(f.marker, None);
}

#[test]
fn handle_resize_records_size_and_settles() {
    let mut t = term(&["a", "b", "c", "d"], pos(0, 3), 4, 10);
    t.scroll_offest.y = 0;
    t.handle_resize(Size { height: 2, width: 5 });
    assert_eq!(t.t_size, Size { height: 2, width: 5 });
    // The cursor on row 3 must stay visible in the two-row viewport.
    assert_eq!(t.scroll_offest.y, 2);
}

#[test]
fn scroll_viewport_clamps_after_shrink() {
    let mut t = term(&["a", "b"], pos(0, 1), 1, 10);
    t.scroll_offest.y = 7;
    t.scroll_viewport();
    assert_eq!(t.scroll_offest.y, 1);
}

#[test]
fn editor_starts_fresh() {
    let e = Editor::default();
    assert!(!e.should_quit);
    assert_eq!(e.terminal.buffer.line_count(), 0);
    assert_eq!(e.terminal.curr_pos, pos(0, 0));
}

#[test]
fn quit_key_ends_session() {
    let mut e = Editor::default();
    assert_eq!(e.refresh_screen(), None);
    e.evaluate_event(KeyInput::Ctrl('q'));
    assert!(e.should_quit);
    let msg: String = e.refresh_screen().expect("farewell expected").iter().collect();
    assert_eq!(msg, "Goodbye.\r\n");
}

#[test]
fn other_keys_reach_the_buffer_through_the_editor() {
    let mut e = Editor::default();
    e.evaluate_event(KeyInput::Char('o'));
    e.evaluate_event(KeyInput::Char('k'));
    assert!(!e.should_quit);
    assert_eq!(strings(&e.terminal.buffer), vec!["ok"]);
}

#[test]
fn failed_edit_is_a_noop_for_the_editor() {
    let mut e = Editor::default();
    e.terminal = term(&["a", "bbbb"], pos(4, 1), 10, 10);
    e.evaluate_event(KeyInput::Up);
    e.evaluate_event(KeyInput::Char('x'));
    assert!(!e.should_quit);
    assert_eq!(strings(&e.terminal.buffer), vec!["a", "bbbb"]);
    assert_eq!(e.terminal.curr_pos, pos(4, 0));
}
