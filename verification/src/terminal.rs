use vstd::prelude::*;

use crate::buffer::MAX_EXTENT;
use crate::buffer::TextBuffer;
use crate::buffer::buf_wf;
use crate::buffer::lines_view;
use crate::buffer::row_ok;
use crate::cursor::EditCommand;
use crate::cursor::apply;
use crate::cursor::apply_buf;
use crate::cursor::apply_ok;
use crate::cursor::apply_pos;
use crate::error::EditError;
use crate::key::KeyInput;
use crate::position::Position;
use crate::position::Size;
use crate::render::Frame;
use crate::render::draw;
use crate::render::marker_spec;
use crate::render::row_spec;
use crate::render::row_view;
use crate::selection::capture;
use crate::selection::capture_ok;
use crate::selection::capture_spec;
use crate::selection::paste_at;
use crate::selection::paste_len;
use crate::selection::paste_ok;
use crate::viewport::settle;
use crate::viewport::settle_spec;

verus! {

/// The editor session around one document: the text buffer, the edit
/// cursor, the viewport state, and the optional selection overlay. The
/// selection fields mirror a selection session: `viz_mode` is its active
/// flag, `viz_org_cursor_pos` its anchor, `viz_cursor_pos` its moving
/// cursor, and `viz_mode_buffer` the captured text.
pub struct Terminal {
    pub viz_mode: bool,
    pub viz_mode_buffer: Vec<Vec<char>>,
    pub viz_org_cursor_pos: Position,
    pub viz_cursor_pos: Position,
    pub t_size: Size,
    pub curr_pos: Position,
    pub scroll_offest: Position,
    pub buffer: TextBuffer,
}

/// The mathematical content of a session: what each field holds, with the
/// text as sequences of character sequences.
#[verifier::ext_equal]
pub ghost struct TermView {
    pub viz_mode: bool,
    pub captured: Seq<Seq<char>>,
    pub anchor: Position,
    pub sel_cursor: Position,
    pub size: Size,
    pub cursor: Position,
    pub offset: Position,
    pub lines: Seq<Seq<char>>,
}

impl View for Terminal {
    type V = TermView;

    open spec fn view(&self) -> TermView {
        TermView {
            viz_mode: self.viz_mode,
            captured: lines_view(self.viz_mode_buffer@),
            anchor: self.viz_org_cursor_pos,
            sel_cursor: self.viz_cursor_pos,
            size: self.t_size,
            cursor: self.curr_pos,
            offset: self.scroll_offest,
            lines: self.buffer@,
        }
    }
}

impl TermView {
    /// Well-formedness of a session: the buffer's extents are addressable,
    /// every cursor sits on an existing row, and the captured fragments are
    /// themselves addressable (so pasting them back can be checked).
    pub open spec fn wf(self) -> bool {
        &&& buf_wf(self.lines)
        &&& row_ok(self.cursor, self.lines.len() as int)
        &&& (self.viz_mode ==> row_ok(self.sel_cursor, self.lines.len() as int))
        &&& (self.viz_mode ==> row_ok(self.anchor, self.lines.len() as int))
        &&& buf_wf(self.captured)
    }

    /// The row that scrolling must keep visible: the selection's moving
    /// cursor while selection mode is active, the edit cursor otherwise.
    pub open spec fn active_row(self) -> u16 {
        if self.viz_mode {
            self.sel_cursor.y
        } else {
            self.cursor.y
        }
    }

    /// The session after one settling pass of the vertical scroll offset.
    pub open spec fn settled(self) -> TermView {
        TermView {
            offset: Position {
                x: self.offset.x,
                y: settle_spec(
                    self.offset.y as int,
                    self.active_row() as int,
                    self.lines.len() as int,
                    self.size.height as int,
                ) as u16,
            },
            ..self
        }
    }

    /// The session with a new captured text.
    pub open spec fn with_captured(self, captured: Seq<Seq<char>>) -> TermView {
        TermView { captured, ..self }
    }

    /// The session with new buffer content.
    pub open spec fn with_lines(self, lines: Seq<Seq<char>>) -> TermView {
        TermView { lines, ..self }
    }

    /// The session after a resize notification.
    pub open spec fn with_size(self, size: Size) -> TermView {
        TermView { size, ..self }
    }

    /// One editing command applied to the buffer and the edit cursor; on
    /// failure the session is unchanged and the command was a no-op.
    pub open spec fn cmd_step(self, cmd: EditCommand) -> (TermView, Result<(), EditError>) {
        if apply_ok(self.lines, self.cursor, cmd) {
            (
                TermView {
                    lines: apply_buf(self.lines, self.cursor, cmd),
                    cursor: apply_pos(self.lines, self.cursor, cmd),
                    ..self
                },
                Ok(()),
            )
        } else {
            (self, Err(EditError::OutOfRange))
        }
    }

    /// One movement command applied to the buffer and the selection's moving
    /// cursor, reusing the cursor model's wrap rules.
    pub open spec fn sel_step(self, cmd: EditCommand) -> (TermView, Result<(), EditError>) {
        if apply_ok(self.lines, self.sel_cursor, cmd) {
            (
                TermView {
                    lines: apply_buf(self.lines, self.sel_cursor, cmd),
                    sel_cursor: apply_pos(self.lines, self.sel_cursor, cmd),
                    ..self
                },
                Ok(()),
            )
        } else {
            (self, Err(EditError::OutOfRange))
        }
    }

    /// Entering selection mode: anchor and moving cursor both start at the
    /// edit cursor.
    pub open spec fn enter_selection(self) -> TermView {
        TermView { viz_mode: true, anchor: self.cursor, sel_cursor: self.cursor, ..self }
    }

    /// Leaving selection mode clears the captured text.
    pub open spec fn exit_selection(self) -> TermView {
        TermView { viz_mode: false, captured: Seq::empty(), ..self }
    }

    /// Copying captures the text between the moving cursor and the anchor.
    pub open spec fn copy_step(self) -> (TermView, Result<(), EditError>) {
        if capture_ok(self.lines, self.sel_cursor, self.anchor) {
            (
                self.with_captured(capture_spec(self.lines, self.sel_cursor, self.anchor)),
                Ok(()),
            )
        } else {
            (self, Err(EditError::InvalidRange))
        }
    }

    /// Pasting re-inserts the captured fragments starting at the selection
    /// cursor's line.
    pub open spec fn paste_step(self) -> (TermView, Result<(), EditError>) {
        if paste_ok(self.lines, self.captured, self.sel_cursor.x as int, self.sel_cursor.y as int) {
            (
                TermView {
                    lines: paste_at(
                        self.lines,
                        self.captured,
                        self.sel_cursor.x as int,
                        self.sel_cursor.y as int,
                    ),
                    ..self
                },
                Ok(()),
            )
        } else {
            (self, Err(EditError::OutOfRange))
        }
    }

    /// Dispatch of one key press outside selection mode.
    pub open spec fn normal_step(self, key: KeyInput) -> (TermView, Result<(), EditError>) {
        match key {
            KeyInput::Alt(c) => if c == 'v' {
                (self.enter_selection(), Ok(()))
            } else {
                (self, Ok(()))
            },
            KeyInput::Up => self.cmd_step(EditCommand::MoveUp),
            KeyInput::Down => self.cmd_step(EditCommand::MoveDown),
            KeyInput::Left => self.cmd_step(EditCommand::MoveLeft),
            KeyInput::Right => self.cmd_step(EditCommand::MoveRight),
            KeyInput::Enter => self.cmd_step(EditCommand::Enter),
            KeyInput::Backspace => self.cmd_step(EditCommand::Backspace),
            KeyInput::Char(c) => self.cmd_step(EditCommand::InsertChar(c)),
            KeyInput::Ctrl(_) => (self, Ok(())),
            KeyInput::Other => (self, Ok(())),
        }
    }

    /// Dispatch of one key press inside selection mode: movement moves only
    /// the selection cursor, copy and paste work on the captured text, and
    /// the confirm key leaves the mode. Typing is not delivered.
    pub open spec fn viz_step(self, key: KeyInput) -> (TermView, Result<(), EditError>) {
        match key {
            KeyInput::Up => self.sel_step(EditCommand::MoveUp),
            KeyInput::Down => self.sel_step(EditCommand::MoveDown),
            KeyInput::Left => self.sel_step(EditCommand::MoveLeft),
            KeyInput::Right => self.sel_step(EditCommand::MoveRight),
            KeyInput::Ctrl(c) => if c == 'c' {
                self.copy_step()
            } else if c == 'b' {
                self.paste_step()
            } else {
                (self, Ok(()))
            },
            KeyInput::Enter => (self.exit_selection(), Ok(())),
            _ => (self, Ok(())),
        }
    }

    /// One key press handled to completion: the mode's dispatch, then a
    /// settling pass so the active cursor row stays visible.
    pub open spec fn step(self, key: KeyInput) -> (TermView, Result<(), EditError>) {
        let mid = if self.viz_mode {
            self.viz_step(key)
        } else {
            self.normal_step(key)
        };
        (mid.0.settled(), mid.1)
    }
}

impl Terminal {
    /// The reset session: no lines, everything at the origin, selection off.
    pub fn default() -> (t: Terminal)
        ensures
            t@.wf(),
            !t@.viz_mode,
            t@.captured.len() == 0,
            t@.anchor == (Position { x: 0u16, y: 0u16 }),
            t@.sel_cursor == (Position { x: 0u16, y: 0u16 }),
            t@.size == (Size { height: 0u16, width: 0u16 }),
            t@.cursor == (Position { x: 0u16, y: 0u16 }),
            t@.offset == (Position { x: 0u16, y: 0u16 }),
            t@.lines.len() == 0,
    {
        Terminal {
            viz_mode: false,
            viz_mode_buffer: Vec::new(),
            viz_org_cursor_pos: Position { x: 0, y: 0 },
            viz_cursor_pos: Position { x: 0, y: 0 },
            t_size: Size { height: 0, width: 0 },
            curr_pos: Position { x: 0, y: 0 },
            scroll_offest: Position { x: 0, y: 0 },
            buffer: TextBuffer::new(),
        }
    }

    /// Recomputes the vertical scroll offset so the active cursor row stays
    /// visible whenever the cursor or the terminal size has changed.
    pub fn scroll_viewport(&mut self)
        requires
            old(self)@.wf(),
        ensures
            final(self)@.wf(),
            final(self)@ == old(self)@.settled(),
    {
        let lc = self.buffer.line_count();
        let row = if self.viz_mode {
            self.viz_cursor_pos.y
        } else {
            self.curr_pos.y
        };
        let new_y = settle(self.scroll_offest.y, row, lc as u16, self.t_size.height);
        self.scroll_offest.y = new_y;
        proof {
            assert(final(self)@ =~= old(self)@.settled());
        }
    }

    /// Inserts `c` at the edit cursor and advances the cursor one column,
    /// clamped to the new line length. Appends a fresh line when the cursor
    /// sits one past the last. Fails with `OutOfRange` as the buffer
    /// operation does, changing nothing.
    pub fn insert_char(&mut self, c: char) -> (r: Result<(), EditError>)
        requires
            old(self)@.wf(),
        ensures
            final(self)@.wf(),
            final(self)@ == old(self)@.cmd_step(EditCommand::InsertChar(c)).0,
            r == old(self)@.cmd_step(EditCommand::InsertChar(c)).1,
    {
        let r = apply(EditCommand::InsertChar(c), &mut self.buffer, &mut self.curr_pos);
        proof {
            assert(old(self)@.lines.len() <= final(self)@.lines.len());
            assert(final(self)@ =~= old(self)@.cmd_step(EditCommand::InsertChar(c)).0);
            if r is Ok {
                assert(r == Ok::<(), EditError>(()));
            }
        }
        r
    }

    /// Records a resize notification and settles the viewport against the
    /// new height.
    pub fn handle_resize(&mut self, size: Size)
        requires
            old(self)@.wf(),
        ensures
            final(self)@.wf(),
            final(self)@ == old(self)@.with_size(size).settled(),
    {
        self.t_size = size;
        self.scroll_viewport();
    }

    /// Decides one full redraw from the current buffer, scroll offset and
    /// terminal size: which lines are visible, how each is truncated, and
    /// where the marker for `cur_pos` goes. Read-only.
    pub fn draw_rows(&self, cur_pos: Position) -> (f: Frame)
        ensures
            f.rows@.len() == self.t_size.height,
            forall|i: int|
                0 <= i < self.t_size.height ==> row_view(#[trigger] f.rows@[i]) == row_spec(
                    self.buffer@,
                    self.scroll_offest.y as int,
                    self.t_size.width as int,
                    i,
                ),
            f.marker == marker_spec(cur_pos, self.scroll_offest.y as int,
                self.t_size.height as int, self.buffer@.len() as int),
    {
        draw(&self.buffer, self.scroll_offest, self.t_size, cur_pos)
    }

    /// Captures the text between the two positions into the session's
    /// captured buffer, normalized so extraction runs from the earlier one.
    /// Fails with `InvalidRange`, keeping the previous capture, when the
    /// range cannot be extracted.
    pub fn copy_to_buffer(&mut self, from: Position, to: Position) -> (r: Result<(), EditError>)
        requires
            old(self)@.wf(),
        ensures
            final(self)@.wf(),
            r is Ok <==> capture_ok(old(self)@.lines, from, to),
            r is Ok ==> r == Ok::<(), EditError>(()),
            r is Ok ==> final(self)@ == old(self)@.with_captured(
                capture_spec(old(self)@.lines, from, to),
            ),
            r is Err ==> *final(self) == *old(self) && r == Err::<(), EditError>(
                EditError::InvalidRange,
            ),
    {
        match capture(&self.buffer, from, to) {
            Ok(v) => {
                self.viz_mode_buffer = v;
                proof {
                    lemma_capture_wf(old(self)@.lines, from, to);
                    assert(final(self)@ =~= old(self)@.with_captured(
                        capture_spec(old(self)@.lines, from, to),
                    ));
                }
                Ok(())
            },
            Err(e) => Err(e),
        }
    }
}

impl Terminal {
    /// Applies one editing command to the buffer and the edit cursor.
    fn apply_edit(&mut self, cmd: EditCommand) -> (r: Result<(), EditError>)
        requires
            old(self)@.wf(),
            !old(self)@.viz_mode,
        ensures
            final(self)@.wf(),
            final(self)@ == old(self)@.cmd_step(cmd).0,
            r == old(self)@.cmd_step(cmd).1,
    {
        let r = apply(cmd, &mut self.buffer, &mut self.curr_pos);
        proof {
            if r is Ok {
                assert(r == Ok::<(), EditError>(()));
            }
            assert(final(self)@ =~= old(self)@.cmd_step(cmd).0);
        }
        r
    }

    /// Applies one movement command to the buffer and the selection's moving
    /// cursor, reusing the cursor model's wrap rules.
    fn sel_apply_edit(&mut self, cmd: EditCommand) -> (r: Result<(), EditError>)
        requires
            old(self)@.wf(),
            old(self)@.viz_mode,
            cmd matches EditCommand::MoveUp || cmd matches EditCommand::MoveDown || cmd
                matches EditCommand::MoveLeft || cmd matches EditCommand::MoveRight,
        ensures
            final(self)@.wf(),
            final(self)@ == old(self)@.sel_step(cmd).0,
            r == old(self)@.sel_step(cmd).1,
    {
        let r = apply(cmd, &mut self.buffer, &mut self.viz_cursor_pos);
        proof {
            if r is Ok {
                assert(r == Ok::<(), EditError>(()));
            }
            assert(old(self)@.lines.len() <= final(self)@.lines.len());
            assert(final(self)@ =~= old(self)@.sel_step(cmd).0);
        }
        r
    }

    /// Handles one key press outside selection mode.
    fn handle_normal_mode(&mut self, key: KeyInput) -> (r: Result<(), EditError>)
        requires
            old(self)@.wf(),
            !old(self)@.viz_mode,
        ensures
            final(self)@.wf(),
            final(self)@ == old(self)@.normal_step(key).0,
            r == old(self)@.normal_step(key).1,
    {
        match key {
            KeyInput::Alt(c) => {
                if c == 'v' {
                    self.viz_mode = true;
                    self.viz_cursor_pos = self.curr_pos;
                    self.viz_org_cursor_pos = self.curr_pos;
                    proof {
                        assert(final(self)@ =~= old(self)@.enter_selection());
                    }
                }
                Ok(())
            },
            KeyInput::Up => self.apply_edit(EditCommand::MoveUp),
            KeyInput::Down => self.apply_edit(EditCommand::MoveDown),
            KeyInput::Left => self.apply_edit(EditCommand::MoveLeft),
            KeyInput::Right => self.apply_edit(EditCommand::MoveRight),
            KeyInput::Enter => self.apply_edit(EditCommand::Enter),
            KeyInput::Backspace => self.apply_edit(EditCommand::Backspace),
            KeyInput::Char(c) => self.insert_char(c),
            KeyInput::Ctrl(_) => Ok(()),
            KeyInput::Other => Ok(()),
        }
    }

    /// Handles one key press inside selection mode: movement moves only the
    /// selection cursor, copy and paste work on the captured text, and the
    /// confirm key leaves the mode. Typing is not delivered to the buffer.
    fn handle_viz_mode(&mut self, key: KeyInput) -> (r: Result<(), EditError>)
        requires
            old(self)@.wf(),
            old(self)@.viz_mode,
        ensures
            final(self)@.wf(),
            final(self)@ == old(self)@.viz_step(key).0,
            r == old(self)@.viz_step(key).1,
    {
        match key {
            KeyInput::Up => self.sel_apply_edit(EditCommand::MoveUp),
            KeyInput::Down => self.sel_apply_edit(EditCommand::MoveDown),
            KeyInput::Left => self.sel_apply_edit(EditCommand::MoveLeft),
            KeyInput::Right => self.sel_apply_edit(EditCommand::MoveRight),
            KeyInput::Ctrl(c) => {
                if c == 'c' {
                    let from = self.viz_cursor_pos;
                    let to = self.viz_org_cursor_pos;
                    let r = self.copy_to_buffer(from, to);
                    proof {
                        if r is Ok {
                            assert(r == Ok::<(), EditError>(()));
                        }
                    }
                    r
                } else if c == 'b' {
                    let r = self.paste_captured();
                    proof {
                        if r is Ok {
                            assert(r == Ok::<(), EditError>(()));
                            assert(final(self)@ =~= old(self)@.paste_step().0);
                        }
                    }
                    r
                } else {
                    Ok(())
                }
            },
            KeyInput::Enter => {
                self.viz_mode = false;
                self.viz_mode_buffer = Vec::new();
                proof {
                    assert(final(self)@ =~= old(self)@.exit_selection());
                }
                Ok(())
            },
            _ => Ok(()),
        }
    }

    /// Handles one key press to completion: dispatches it according to the
    /// current mode, then settles the viewport so the active cursor row
    /// stays visible. A failed edit returns its error with the session
    /// otherwise unchanged but for the settling pass.
    pub fn move_cursor(&mut self, key: KeyInput) -> (r: Result<(), EditError>)
        requires
            old(self)@.wf(),
        ensures
            final(self)@.wf(),
            final(self)@ == old(self)@.step(key).0,
            r == old(self)@.step(key).1,
    {
        let r = if self.viz_mode {
            self.handle_viz_mode(key)
        } else {
            self.handle_normal_mode(key)
        };
        self.scroll_viewport();
        r
    }

    /// Pastes the captured fragments back into the buffer, starting at the
    /// selection cursor's line: each fragment is inserted at the cursor
    /// column of its target line, and fragments beyond the last line are
    /// appended as new lines. Nothing is ever overwritten. Fails with
    /// `OutOfRange`, changing nothing, when the cursor column lies beyond a
    /// target line or a merged line or the line count would exceed the
    /// largest addressable extent.
    pub fn paste_captured(&mut self) -> (r: Result<(), EditError>)
        requires
            old(self)@.wf(),
        ensures
            final(self)@.wf(),
            r is Ok <==> paste_ok(
                old(self)@.lines,
                old(self)@.captured,
                old(self)@.sel_cursor.x as int,
                old(self)@.sel_cursor.y as int,
            ),
            r is Ok ==> r == Ok::<(), EditError>(()),
            r is Ok ==> final(self)@ == old(self)@.with_lines(
                paste_at(
                    old(self)@.lines,
                    old(self)@.captured,
                    old(self)@.sel_cursor.x as int,
                    old(self)@.sel_cursor.y as int,
                ),
            ),
            r is Err ==> *final(self) == *old(self) && r == Err::<(), EditError>(
                EditError::OutOfRange,
            ),
    {
        let x = self.viz_cursor_pos.x as usize;
        let y = self.viz_cursor_pos.y as usize;
        let k = self.viz_mode_buffer.len();
        let ghost b0 = self@.lines;
        let ghost f0 = self@.captured;
        if y + k > MAX_EXTENT {
            return Err(EditError::OutOfRange);
        }
        let n = self.buffer.line_count();
        if y > n {
            return Err(EditError::OutOfRange);
        }
        let mut i: usize = 0;
        while i < k
            invariant
                i <= k,
                k <= MAX_EXTENT,
                y <= MAX_EXTENT,
                buf_wf(f0),
                buf_wf(b0),
                old(self)@.wf(),
                *self == *old(self),
                x == old(self)@.sel_cursor.x as int,
                y == old(self)@.sel_cursor.y as int,
                b0 == old(self)@.lines,
                f0 == old(self)@.captured,
                k == f0.len(),
                n == b0.len(),
                forall|j: int|
                    0 <= j < i && y + j < b0.len() ==> x <= (#[trigger] b0[y + j]).len() && b0[y
                        + j].len() + f0[j].len() <= MAX_EXTENT,
            decreases k - i,
        {
            if y + i < n {
                let ll = self.buffer.line_len(y + i);
                let fl = self.viz_mode_buffer[i].len();
                proof {
                    assert(f0[i as int] == self.viz_mode_buffer@[i as int]@);
                    assert(b0[y + i as int].len() <= MAX_EXTENT);
                }
                if x > ll || ll > MAX_EXTENT - fl {
                    proof {
                        assert(!paste_ok(b0, f0, x as int, y as int));
                    }
                    return Err(EditError::OutOfRange);
                }
            }
            i = i + 1;
        }
        proof {
            assert(paste_ok(b0, f0, x as int, y as int));
        }
        let ghost v0 = old(self)@;
        proof {
            assert(b0 =~~= paste_at(b0, f0.take(0), x as int, y as int));
        }
        let mut i: usize = 0;
        while i < k
            invariant
                i <= k,
                k == f0.len(),
                b0 == v0.lines,
                f0 == v0.captured,
                v0 == old(self)@,
                v0.wf(),
                x == v0.sel_cursor.x as int,
                y == v0.sel_cursor.y as int,
                y + k <= MAX_EXTENT,
                paste_ok(b0, f0, x as int, y as int),
                self.viz_mode == v0.viz_mode,
                self@.captured == f0,
                self.viz_org_cursor_pos == v0.anchor,
                self.viz_cursor_pos == v0.sel_cursor,
                self.t_size == v0.size,
                self.curr_pos == v0.cursor,
                self.scroll_offest == v0.offset,
                self.buffer@ == paste_at(b0, f0.take(i as int), x as int, y as int),
            decreases k - i,
        {
            let row = y + i;
            let ghost cur = self.buffer@;
            let frag_src = &self.viz_mode_buffer[i];
            let frag_len = frag_src.len();
            let mut frag = crate::buffer::copy_range(frag_src, 0, frag_len);
            proof {
                assert(frag@ =~= f0[i as int]);
                assert(cur.len() == paste_len(b0.len() as int, i as int, y as int));
                if y + i < b0.len() {
                    assert(cur[row as int] == b0[row as int]);
                    assert(x <= b0[y + i as int].len() && b0[y + i as int].len() + f0[
                        i as int
                    ].len() <= MAX_EXTENT);
                }
            }
            proof {
                assert(forall|j: int| 0 <= j <= i ==> (#[trigger] f0.take(i + 1)[j]) == f0[j]);
                assert(forall|j: int| 0 <= j < i ==> (#[trigger] f0.take(i as int)[j]) == f0[j]);
            }
            if row < self.buffer.lines.len() {
                let mut tail = self.buffer.lines[row].split_off(x);
                self.buffer.lines[row].append(&mut frag);
                self.buffer.lines[row].append(&mut tail);
                proof {
                    assert(row < b0.len());
                    assert(paste_len(b0.len() as int, (i + 1) as int, y as int) == cur.len());
                    assert(self.buffer@.len() == cur.len());
                    assert(self.buffer@[row as int] =~= b0[row as int].take(x as int) + f0[
                        i as int
                    ] + b0[row as int].skip(x as int));
                    assert(forall|r: int|
                        0 <= r < cur.len() && r != row ==> (#[trigger] self.buffer@[r]) == cur[r]);
                    assert(self.buffer@ =~~= paste_at(b0, f0.take(i + 1), x as int, y as int));
                }
            } else {
                self.buffer.lines.push(frag);
                proof {
                    assert(row >= b0.len());
                    assert(cur.len() == row);
                    assert(paste_len(b0.len() as int, (i + 1) as int, y as int) == cur.len() + 1);
                    assert(self.buffer@.len() == cur.len() + 1);
                    assert(self.buffer@[row as int] == f0[i as int]);
                    assert(forall|r: int|
                        0 <= r < cur.len() ==> (#[trigger] self.buffer@[r]) == cur[r]);
                    assert(self.buffer@ =~~= paste_at(b0, f0.take(i + 1), x as int, y as int));
                }
            }
            i = i + 1;
        }
        proof {
            assert(f0.take(k as int) =~= f0);
            let pb = paste_at(b0, f0, x as int, y as int);
            assert(b0.len() <= pb.len());
            assert forall|r: int| 0 <= r < pb.len() implies (#[trigger] pb[r]).len()
                <= MAX_EXTENT by {
                if y <= r < y + f0.len() {
                    let j = r - y;
                    if r < b0.len() {
                        assert(x <= b0[y + j].len() && b0[y + j].len() + f0[j].len()
                            <= MAX_EXTENT);
                        assert(pb[r] == b0[r].take(x as int) + f0[j] + b0[r].skip(x as int));
                    } else {
                        assert(f0[j].len() <= MAX_EXTENT);
                    }
                } else {
                    assert(0 <= r < b0.len());
                    assert(b0[r].len() <= MAX_EXTENT);
                }
            }
            assert(final(self)@ =~= old(self)@.with_lines(pb));
        }
        Ok(())
    }
}

/// A capture of a well-formed buffer is itself well-formed: it has no more
/// fragments than the buffer has lines, and each fragment is a slice of one
/// line.
proof fn lemma_capture_wf(b: Seq<Seq<char>>, p: Position, q: Position)
    requires
        buf_wf(b),
        capture_ok(b, p, q),
    ensures
        buf_wf(capture_spec(b, p, q)),
{
    let cs = capture_spec(b, p, q);
    let f = crate::selection::sel_first(p, q);
    let t = crate::selection::sel_last(p, q);
    assert forall|i: int| 0 <= i < cs.len() implies (#[trigger] cs[i]).len() <= MAX_EXTENT by {
        if f.y == t.y {
            assert(b[f.y as int].len() <= MAX_EXTENT);
        } else {
            if i == 0 {
                assert(b[f.y as int].len() <= MAX_EXTENT);
            } else if i < cs.len() - 1 {
                assert(cs[i] == b[f.y + i]);
                assert(b[f.y + i].len() <= MAX_EXTENT);
            } else {
                assert(b[t.y as int].len() <= MAX_EXTENT);
            }
        }
    }
}

} // verus!
