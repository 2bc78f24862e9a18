use vstd::prelude::*;

use crate::buffer::TextBuffer;
use crate::buffer::buf_wf;
use crate::buffer::delete_before_buf;
use crate::buffer::delete_before_ok;
use crate::buffer::delete_before_pos;
use crate::buffer::insert_char_at;
use crate::buffer::insert_char_ok;
use crate::buffer::row_ok;
use crate::buffer::split_line_at;
use crate::buffer::split_line_ok;
use crate::error::EditError;
use crate::position::Position;

verus! {

/// One editing command, as the cursor model understands it.
#[derive(Clone, Copy, Debug, PartialEq, Eq, Structural)]
pub enum EditCommand {
    MoveUp,
    MoveDown,
    MoveLeft,
    MoveRight,
    InsertChar(char),
    Enter,
    Backspace,
}

/// Moving up decrements the row when possible; the column is kept, even when
/// it now lies beyond the end of the shorter line above.
pub open spec fn move_up_pos(p: Position) -> Position {
    if p.y > 0 {
        Position { x: p.x, y: (p.y - 1) as u16 }
    } else {
        p
    }
}

/// Moving left decrements the column, or wraps to the end of the previous
/// line; at the origin it is a no-op.
pub open spec fn move_left_pos(b: Seq<Seq<char>>, p: Position) -> Position {
    if p.x > 0 {
        Position { x: (p.x - 1) as u16, y: p.y }
    } else if p.y > 0 {
        Position { x: b[p.y - 1].len() as u16, y: (p.y - 1) as u16 }
    } else {
        p
    }
}

/// Moving right increments the column within the line, or wraps to the start
/// of the next line; at the end of the last line it is a no-op.
pub open spec fn move_right_pos(b: Seq<Seq<char>>, p: Position) -> Position {
    if p.y < b.len() {
        if p.x < b[p.y as int].len() {
            Position { x: (p.x + 1) as u16, y: p.y }
        } else if p.y + 1 < b.len() {
            Position { x: 0, y: (p.y + 1) as u16 }
        } else {
            p
        }
    } else {
        p
    }
}

/// Whether applying `cmd` at `p` succeeds. Plain movement always does;
/// moving down past the last row succeeds exactly when the line can be split
/// at the cursor, and the editing commands succeed exactly when the
/// underlying buffer operation does.
pub open spec fn apply_ok(b: Seq<Seq<char>>, p: Position, cmd: EditCommand) -> bool {
    match cmd {
        EditCommand::MoveUp => true,
        EditCommand::MoveLeft => true,
        EditCommand::MoveRight => true,
        EditCommand::MoveDown => p.y + 1 < b.len() || split_line_ok(b, p.y as int, p.x as int),
        EditCommand::Enter => split_line_ok(b, p.y as int, p.x as int),
        EditCommand::Backspace => delete_before_ok(b, p),
        EditCommand::InsertChar(_) => insert_char_ok(b, p.y as int, p.x as int),
    }
}

/// The buffer after applying `cmd` at `p`. Movement leaves the buffer alone,
/// with one deliberate exception: moving down while on the last row splits
/// that line at the cursor column, creating a new line below.
pub open spec fn apply_buf(b: Seq<Seq<char>>, p: Position, cmd: EditCommand) -> Seq<Seq<char>> {
    match cmd {
        EditCommand::MoveUp => b,
        EditCommand::MoveLeft => b,
        EditCommand::MoveRight => b,
        EditCommand::MoveDown => if p.y + 1 < b.len() {
            b
        } else {
            split_line_at(b, p.y as int, p.x as int)
        },
        EditCommand::Enter => split_line_at(b, p.y as int, p.x as int),
        EditCommand::Backspace => delete_before_buf(b, p),
        EditCommand::InsertChar(c) => insert_char_at(b, p.y as int, p.x as int, c),
    }
}

/// The cursor after applying `cmd` at `p`.
pub open spec fn apply_pos(b: Seq<Seq<char>>, p: Position, cmd: EditCommand) -> Position {
    match cmd {
        EditCommand::MoveUp => move_up_pos(p),
        EditCommand::MoveLeft => move_left_pos(b, p),
        EditCommand::MoveRight => move_right_pos(b, p),
        EditCommand::MoveDown => if p.y + 1 < b.len() {
            Position { x: p.x, y: (p.y + 1) as u16 }
        } else {
            Position { x: 0, y: (p.y + 1) as u16 }
        },
        EditCommand::Enter => Position { x: 0, y: (p.y + 1) as u16 },
        EditCommand::Backspace => delete_before_pos(b, p),
        EditCommand::InsertChar(_) => Position { x: (p.x + 1) as u16, y: p.y },
    }
}

/// The cursor model's single entry point: applies one command to the buffer
/// and to the position that the caller designates, enforcing the clamping
/// rules. On failure both are left unchanged and the event counts as a no-op.
pub fn apply(cmd: EditCommand, buf: &mut TextBuffer, pos: &mut Position) -> (r: Result<
    (),
    EditError,
>)
    requires
        buf_wf(old(buf)@),
        row_ok(*old(pos), old(buf)@.len() as int),
    ensures
        buf_wf(final(buf)@),
        row_ok(*final(pos), final(buf)@.len() as int),
        r is Ok <==> apply_ok(old(buf)@, *old(pos), cmd),
        r is Ok ==> r == Ok::<(), EditError>(()) && final(buf)@ == apply_buf(
            old(buf)@,
            *old(pos),
            cmd,
        ) && *final(pos) == apply_pos(old(buf)@, *old(pos), cmd),
        r is Err ==> final(buf)@ == old(buf)@ && *final(pos) == *old(pos) && r == Err::<
            (),
            EditError,
        >(EditError::OutOfRange),
{
    match cmd {
        EditCommand::MoveUp => {
            if pos.y > 0 {
                pos.y = pos.y - 1;
            }
            Ok(())
        },
        EditCommand::MoveLeft => {
            if pos.x > 0 {
                pos.x = pos.x - 1;
            } else if pos.y > 0 {
                let len = buf.line_len((pos.y - 1) as usize);
                pos.y = pos.y - 1;
                pos.x = len as u16;
            }
            Ok(())
        },
        EditCommand::MoveRight => {
            let n = buf.line_count();
            if (pos.y as usize) < n {
                let len = buf.line_len(pos.y as usize);
                if (pos.x as usize) < len {
                    pos.x = pos.x + 1;
                } else if (pos.y as usize) + 1 < n {
                    pos.y = pos.y + 1;
                    pos.x = 0;
                }
            }
            Ok(())
        },
        EditCommand::MoveDown => {
            let n = buf.line_count();
            if (pos.y as usize) + 1 < n {
                pos.y = pos.y + 1;
                Ok(())
            } else {
                match buf.split_line(*pos) {
                    Ok(()) => {
                        pos.y = pos.y + 1;
                        pos.x = 0;
                        Ok(())
                    },
                    Err(e) => Err(e),
                }
            }
        },
        EditCommand::Enter => {
            match buf.split_line(*pos) {
                Ok(()) => {
                    pos.y = pos.y + 1;
                    pos.x = 0;
                    Ok(())
                },
                Err(e) => Err(e),
            }
        },
        EditCommand::Backspace => {
            match buf.delete_char_before(*pos) {
                Ok(p) => {
                    pos.x = p.x;
                    pos.y = p.y;
                    Ok(())
                },
                Err(e) => Err(e),
            }
        },
        EditCommand::InsertChar(c) => {
            match buf.insert_char(*pos, c) {
                Ok(()) => {
                    pos.x = pos.x + 1;
                    Ok(())
                },
                Err(e) => Err(e),
            }
        },
    }
}

/// The column stays within its line. Movement keeps this for every command
/// but moving up, and moving down within the buffer, both of which keep the
/// column while the row's line may be shorter.
pub open spec fn col_ok(b: Seq<Seq<char>>, p: Position) -> bool {
    p.y < b.len() ==> p.x <= b[p.y as int].len()
}

/// Boundary behavior of the wrap rules: moving left at the origin is a
/// no-op, and moving right at the last column of the last line is a no-op.
pub proof fn lemma_boundary_moves(b: Seq<Seq<char>>, p: Position)
    ensures
        p.x == 0 && p.y == 0 ==> move_left_pos(b, p) == p,
        b.len() > 0 && p.y == b.len() - 1 && p.x == b[p.y as int].len() ==> move_right_pos(b, p)
            == p,
{
}

/// Typing succeeds whenever the cursor sits on an existing line at a column
/// within it (or one past the last line at column 0) and the line it grows
/// stays below the addressable limit — and it leaves the cursor column
/// within the new line.
pub proof fn lemma_insert_succeeds_and_clamps(b: Seq<Seq<char>>, p: Position, c: char)
    requires
        buf_wf(b),
        row_ok(p, b.len() as int),
        p.y < b.len() ==> p.x <= b[p.y as int].len() && b[p.y as int].len() < 65535,
        p.y == b.len() ==> p.x == 0 && b.len() < 65535,
    ensures
        apply_ok(b, p, EditCommand::InsertChar(c)),
        col_ok(
            apply_buf(b, p, EditCommand::InsertChar(c)),
            apply_pos(b, p, EditCommand::InsertChar(c)),
        ),
{
    lemma_apply_keeps_column_in_line(b, p, EditCommand::InsertChar(c));
}

/// Moving down while on the last row does not refuse: it splits that line at
/// the cursor column, creating a new line below that holds the tail, and
/// lands the cursor at the start of the new line. Everything before the
/// split row, and everything after it, is carried over unchanged.
pub proof fn lemma_move_down_on_last_row_splits(b: Seq<Seq<char>>, p: Position)
    requires
        buf_wf(b),
        b.len() >= 1,
        p.y == b.len() - 1,
        p.x <= b[p.y as int].len(),
        b.len() < 65535,
    ensures
        apply_ok(b, p, EditCommand::MoveDown),
        apply_buf(b, p, EditCommand::MoveDown).len() == b.len() + 1,
        apply_buf(b, p, EditCommand::MoveDown)[p.y as int] == b[p.y as int].take(p.x as int),
        apply_buf(b, p, EditCommand::MoveDown)[p.y + 1] == b[p.y as int].skip(p.x as int),
        forall|i: int|
            0 <= i < p.y ==> apply_buf(b, p, EditCommand::MoveDown)[i] == b[i],
        apply_pos(b, p, EditCommand::MoveDown) == (Position { x: 0u16, y: (p.y + 1) as u16 }),
{
}

/// Every successful command except moving up, and except moving down within
/// the buffer, leaves the cursor's column within its line.
pub proof fn lemma_apply_keeps_column_in_line(b: Seq<Seq<char>>, p: Position, cmd: EditCommand)
    requires
        buf_wf(b),
        row_ok(p, b.len() as int),
        col_ok(b, p),
        !(cmd matches EditCommand::MoveUp),
        cmd matches EditCommand::MoveDown ==> p.y + 1 >= b.len(),
        apply_ok(b, p, cmd),
    ensures
        col_ok(apply_buf(b, p, cmd), apply_pos(b, p, cmd)),
{
    let b2 = apply_buf(b, p, cmd);
    let p2 = apply_pos(b, p, cmd);
    match cmd {
        EditCommand::MoveLeft => {
        },
        EditCommand::MoveRight => {
        },
        EditCommand::MoveDown => {
            assert(b2[p2.y as int] == b[p.y as int].skip(p.x as int));
        },
        EditCommand::Enter => {
            assert(b2[p2.y as int] == b[p.y as int].skip(p.x as int));
        },
        EditCommand::Backspace => {
            if p.x == 0 && p.y > 0 {
                assert(b2[p2.y as int] == b[p.y - 1] + b[p.y as int]);
            }
        },
        EditCommand::InsertChar(c) => {
            if p.y < b.len() {
                assert(b2[p2.y as int] == b[p.y as int].insert(p.x as int, c));
            }
        },
        _ => {
        },
    }
}

} // verus!
