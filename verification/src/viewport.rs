use vstd::prelude::*;

verus! {

/// The vertical scroll offset after one settling pass, in document rows.
/// First the offset is clamped back into the buffer (it may point past the
/// end after the buffer shrank), then it is pulled up so the viewport's
/// bottom aligns with the last line when it would otherwise run past it, and
/// finally it is moved just far enough to bring the cursor row back into the
/// `height` visible rows.
pub open spec fn settle_spec(offset: int, cursor_row: int, line_count: int, height: int) -> int {
    let last_row = if line_count >= 1 {
        line_count - 1
    } else {
        0
    };
    let clamped = if offset > last_row {
        last_row
    } else {
        offset
    };
    let bottom = if line_count >= height {
        line_count - height
    } else {
        0
    };
    let aligned = if clamped + height > line_count {
        bottom
    } else {
        clamped
    };
    let revealed_up = if cursor_row < aligned {
        cursor_row
    } else {
        aligned
    };
    if cursor_row >= revealed_up + height {
        cursor_row - height + 1
    } else {
        revealed_up
    }
}

/// Recomputes the vertical scroll offset so the cursor row stays visible.
pub fn settle(offset: u16, cursor_row: u16, line_count: u16, height: u16) -> (r: u16)
    requires
        height == 0 ==> cursor_row < 65535,
    ensures
        r as int == settle_spec(offset as int, cursor_row as int, line_count as int,
            height as int),
{
    let last_row: u16 = if line_count >= 1 {
        line_count - 1
    } else {
        0
    };
    let mut o = offset;
    if o > last_row {
        o = last_row;
    }
    if (o as u32) + (height as u32) > (line_count as u32) {
        o = if line_count >= height {
            line_count - height
        } else {
            0
        };
    }
    if cursor_row < o {
        o = cursor_row;
    }
    if (cursor_row as u32) >= (o as u32) + (height as u32) {
        o = cursor_row - height + 1;
    }
    o
}

/// Settling is idempotent: settling a second time with unchanged inputs
/// produces the same offset as the first pass.
pub proof fn lemma_settle_idempotent(offset: int, cursor_row: int, line_count: int, height: int)
    requires
        0 <= offset,
        0 <= cursor_row,
        0 <= line_count,
        0 <= height,
    ensures
        settle_spec(settle_spec(offset, cursor_row, line_count, height), cursor_row, line_count,
            height) == settle_spec(offset, cursor_row, line_count, height),
{
}

} // verus!
