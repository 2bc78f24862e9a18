use vstd::prelude::*;

use crate::error::EditError;
use crate::position::Position;

verus! {

/// Largest line count and line length the editor can address. Cursor and
/// scroll coordinates are `u16`, so every row and column index must fit one.
pub const MAX_EXTENT: usize = 65535;

/// The document: an ordered sequence of text lines. Lines are kept in
/// insertion order and are never reordered implicitly.
pub struct TextBuffer {
    pub lines: Vec<Vec<char>>,
}

/// The mathematical content of a sequence of text lines.
pub open spec fn lines_view(v: Seq<Vec<char>>) -> Seq<Seq<char>> {
    Seq::new(v.len(), |i: int| v[i]@)
}

impl View for TextBuffer {
    type V = Seq<Seq<char>>;

    open spec fn view(&self) -> Seq<Seq<char>> {
        lines_view(self.lines@)
    }
}

/// Every row index and every column index of the document fits in a `u16`.
pub open spec fn buf_wf(b: Seq<Seq<char>>) -> bool {
    &&& b.len() <= MAX_EXTENT
    &&& forall|i: int| 0 <= i < b.len() ==> (#[trigger] b[i]).len() <= MAX_EXTENT
}

/// The position's row is a valid line index, or 0 while the buffer is still
/// in its empty reset state.
pub open spec fn row_ok(p: Position, line_count: int) -> bool {
    p.y < line_count || (line_count == 0 && p.y == 0)
}

/// When `insert_char` succeeds: the row exists (or is one past the end, in
/// which case the insertion lands at column 0 of a fresh line) and the line
/// it grows stays within the addressable extent.
pub open spec fn insert_char_ok(b: Seq<Seq<char>>, row: int, col: int) -> bool {
    if 0 <= row < b.len() {
        col <= b[row].len() && b[row].len() < MAX_EXTENT
    } else if row == b.len() {
        col == 0 && b.len() < MAX_EXTENT
    } else {
        false
    }
}

/// The buffer after inserting `c` at (`row`, `col`), appending a fresh line
/// when `row` is one past the end.
pub open spec fn insert_char_at(b: Seq<Seq<char>>, row: int, col: int, c: char) -> Seq<Seq<char>> {
    if row == b.len() {
        b.push(seq![c])
    } else {
        b.update(row, b[row].insert(col, c))
    }
}

/// When `split_line` succeeds: the split point lies inside an existing line
/// and the buffer has room for one more line.
pub open spec fn split_line_ok(b: Seq<Seq<char>>, row: int, col: int) -> bool {
    &&& 0 <= row < b.len()
    &&& col <= b[row].len()
    &&& b.len() < MAX_EXTENT
}

/// The buffer after splitting line `row` at `col`: the head keeps the first
/// `col` characters and the tail becomes a new line immediately after.
pub open spec fn split_line_at(b: Seq<Seq<char>>, row: int, col: int) -> Seq<Seq<char>> {
    b.update(row, b[row].take(col)).insert(row + 1, b[row].skip(col))
}

/// When `join_line` succeeds: `row` has a predecessor to merge into, and the
/// merged line stays within the addressable extent.
pub open spec fn join_line_ok(b: Seq<Seq<char>>, row: int) -> bool {
    &&& 1 <= row < b.len()
    &&& b[row - 1].len() + b[row].len() <= MAX_EXTENT
}

/// The buffer after removing line `row` and appending its content to the end
/// of line `row - 1`.
pub open spec fn join_line_at(b: Seq<Seq<char>>, row: int) -> Seq<Seq<char>> {
    b.update(row - 1, b[row - 1] + b[row]).remove(row)
}

/// When `delete_char_before` succeeds. At the very origin it is a no-op; with
/// a positive column it removes one character of the row's line; at column 0
/// it degenerates into joining the row with its predecessor.
pub open spec fn delete_before_ok(b: Seq<Seq<char>>, p: Position) -> bool {
    if p.x == 0 && p.y == 0 {
        true
    } else if p.x > 0 {
        p.y < b.len() && p.x <= b[p.y as int].len()
    } else {
        join_line_ok(b, p.y as int)
    }
}

/// The buffer after `delete_char_before`.
pub open spec fn delete_before_buf(b: Seq<Seq<char>>, p: Position) -> Seq<Seq<char>> {
    if p.x == 0 && p.y == 0 {
        b
    } else if p.x > 0 {
        b.update(p.y as int, b[p.y as int].remove(p.x - 1))
    } else {
        join_line_at(b, p.y as int)
    }
}

/// The cursor after `delete_char_before`: one column left, or the join point
/// at the old end of the previous line.
pub open spec fn delete_before_pos(b: Seq<Seq<char>>, p: Position) -> Position {
    if p.x == 0 && p.y == 0 {
        p
    } else if p.x > 0 {
        Position { x: (p.x - 1) as u16, y: p.y }
    } else {
        Position { x: b[p.y - 1].len() as u16, y: (p.y - 1) as u16 }
    }
}

impl TextBuffer {
    /// The empty document: the fully-reset state before first use.
    pub fn new() -> (r: TextBuffer)
        ensures
            r@.len() == 0,
    {
        TextBuffer { lines: Vec::new() }
    }

    /// The number of lines.
    pub fn line_count(&self) -> (n: usize)
        ensures
            n == self@.len(),
    {
        self.lines.len()
    }

    /// The length of line `row`.
    pub fn line_len(&self, row: usize) -> (n: usize)
        requires
            row < self@.len(),
        ensures
            n == self@[row as int].len(),
    {
        self.lines[row].len()
    }

    /// Inserts `c` at `pos`; when `pos.y` is one past the end, a new empty
    /// line is appended first. Fails with `OutOfRange`, leaving the buffer
    /// unchanged, when the row lies further out, when the column lies beyond
    /// the target line, or when the line is already at the largest
    /// addressable length.
    pub fn insert_char(&mut self, pos: Position, c: char) -> (r: Result<(), EditError>)
        requires
            buf_wf(old(self)@),
        ensures
            buf_wf(final(self)@),
            r is Ok <==> insert_char_ok(old(self)@, pos.y as int, pos.x as int),
            r is Ok ==> final(self)@ == insert_char_at(old(self)@, pos.y as int, pos.x as int, c),
            r is Err ==> final(self)@ == old(self)@ && r == Err::<(), EditError>(
                EditError::OutOfRange,
            ),
    {
        let row = pos.y as usize;
        let col = pos.x as usize;
        let n = self.lines.len();
        if row > n {
            return Err(EditError::OutOfRange);
        }
        if row == n {
            if col != 0 || n >= MAX_EXTENT {
                return Err(EditError::OutOfRange);
            }
            let mut line: Vec<char> = Vec::new();
            line.push(c);
            self.lines.push(line);
            proof {
                assert(line@ =~= seq![c]);
                assert(self@ =~= insert_char_at(old(self)@, pos.y as int, pos.x as int, c));
            }
            return Ok(());
        }
        if col > self.lines[row].len() {
            return Err(EditError::OutOfRange);
        }
        if self.lines[row].len() >= MAX_EXTENT {
            return Err(EditError::OutOfRange);
        }
        self.lines[row].insert(col, c);
        proof {
            assert(self@ =~= insert_char_at(old(self)@, pos.y as int, pos.x as int, c));
        }
        Ok(())
    }

    /// Splits the line at `pos.y` into two lines at column `pos.x`; the tail
    /// becomes a new line immediately after. Fails with `OutOfRange`, leaving
    /// the buffer unchanged, when the position lies outside the buffer or the
    /// buffer is already at the largest addressable line count.
    pub fn split_line(&mut self, pos: Position) -> (r: Result<(), EditError>)
        requires
            buf_wf(old(self)@),
        ensures
            buf_wf(final(self)@),
            r is Ok <==> split_line_ok(old(self)@, pos.y as int, pos.x as int),
            r is Ok ==> final(self)@ == split_line_at(old(self)@, pos.y as int, pos.x as int),
            r is Err ==> final(self)@ == old(self)@ && r == Err::<(), EditError>(
                EditError::OutOfRange,
            ),
    {
        let row = pos.y as usize;
        let col = pos.x as usize;
        if row >= self.lines.len() {
            return Err(EditError::OutOfRange);
        }
        if col > self.lines[row].len() {
            return Err(EditError::OutOfRange);
        }
        if self.lines.len() >= MAX_EXTENT {
            return Err(EditError::OutOfRange);
        }
        let tail = self.lines[row].split_off(col);
        self.lines.insert(row + 1, tail);
        proof {
            assert(self@ =~= split_line_at(old(self)@, pos.y as int, pos.x as int));
        }
        Ok(())
    }

    /// Removes line `row` and appends its content to the end of line
    /// `row - 1`. Fails with `OutOfRange`, leaving the buffer unchanged, when
    /// `row` is 0 or out of bounds, or when the merged line would exceed the
    /// largest addressable length.
    pub fn join_line(&mut self, row: usize) -> (r: Result<(), EditError>)
        requires
            buf_wf(old(self)@),
        ensures
            buf_wf(final(self)@),
            r is Ok <==> join_line_ok(old(self)@, row as int),
            r is Ok ==> final(self)@ == join_line_at(old(self)@, row as int),
            r is Err ==> final(self)@ == old(self)@ && r == Err::<(), EditError>(
                EditError::OutOfRange,
            ),
    {
        if row == 0 || row >= self.lines.len() {
            return Err(EditError::OutOfRange);
        }
        let prev_len = self.lines[row - 1].len();
        let cur_len = self.lines[row].len();
        proof {
            assert(old(self)@[row as int].len() <= MAX_EXTENT);
        }
        if prev_len > MAX_EXTENT - cur_len {
            return Err(EditError::OutOfRange);
        }
        let mut moved = self.lines.remove(row);
        self.lines[row - 1].append(&mut moved);
        proof {
            assert(self@ =~= join_line_at(old(self)@, row as int));
        }
        Ok(())
    }

    /// Removes the character immediately before `pos` and reports where the
    /// cursor lands. At column 0 of a later row this joins the row with its
    /// predecessor and lands at the join point; at the origin it is a no-op,
    /// not an error. Fails with `OutOfRange`, leaving the buffer unchanged,
    /// when `pos` lies outside the buffer or the join would exceed the
    /// largest addressable line length.
    pub fn delete_char_before(&mut self, pos: Position) -> (r: Result<Position, EditError>)
        requires
            buf_wf(old(self)@),
        ensures
            buf_wf(final(self)@),
            r is Ok <==> delete_before_ok(old(self)@, pos),
            r is Ok ==> final(self)@ == delete_before_buf(old(self)@, pos) && r
                == Ok::<Position, EditError>(delete_before_pos(old(self)@, pos)),
            r is Err ==> final(self)@ == old(self)@ && r == Err::<Position, EditError>(
                EditError::OutOfRange,
            ),
    {
        if pos.x == 0 && pos.y == 0 {
            return Ok(pos);
        }
        if pos.x > 0 {
            let row = pos.y as usize;
            let col = pos.x as usize;
            if row >= self.lines.len() {
                return Err(EditError::OutOfRange);
            }
            if col > self.lines[row].len() {
                return Err(EditError::OutOfRange);
            }
            self.lines[row].remove(col - 1);
            proof {
                assert(self@ =~= delete_before_buf(old(self)@, pos));
            }
            return Ok(Position { x: pos.x - 1, y: pos.y });
        }
        // pos.x == 0 and pos.y > 0: join with the previous line.
        let row = pos.y as usize;
        if row >= self.lines.len() {
            return Err(EditError::OutOfRange);
        }
        let prev_len = self.lines[row - 1].len();
        match self.join_line(row) {
            Ok(()) => {
                proof {
                    assert(prev_len <= MAX_EXTENT);
                }
                Ok(Position { x: prev_len as u16, y: pos.y - 1 })
            },
            Err(e) => Err(e),
        }
    }
}

/// Every mutating buffer operation keeps at least one line in the buffer:
/// inserting establishes it even from the empty reset state, splitting
/// leaves two lines where one was, joining removes a line only when two
/// exist, and deleting backwards either keeps the line count or joins.
pub proof fn lemma_operations_keep_buffer_nonempty(
    b: Seq<Seq<char>>,
    p: Position,
    row: int,
    c: char,
)
    ensures
        insert_char_ok(b, p.y as int, p.x as int) ==> insert_char_at(
            b,
            p.y as int,
            p.x as int,
            c,
        ).len() >= 1,
        split_line_ok(b, p.y as int, p.x as int) ==> split_line_at(
            b,
            p.y as int,
            p.x as int,
        ).len() >= 2,
        join_line_ok(b, row) ==> join_line_at(b, row).len() >= 1,
        b.len() >= 1 && delete_before_ok(b, p) ==> delete_before_buf(b, p).len() >= 1,
{
}

/// Inserting `c` at `pos` and then deleting the character immediately after
/// `pos` restores the buffer, line content included.
pub proof fn lemma_insert_then_delete_round_trip(b: Seq<Seq<char>>, p: Position, c: char)
    requires
        p.y < b.len(),
        insert_char_ok(b, p.y as int, p.x as int),
    ensures
        delete_before_ok(
            insert_char_at(b, p.y as int, p.x as int, c),
            Position { x: (p.x + 1) as u16, y: p.y },
        ),
        delete_before_buf(
            insert_char_at(b, p.y as int, p.x as int, c),
            Position { x: (p.x + 1) as u16, y: p.y },
        ) == b,
{
    let b2 = insert_char_at(b, p.y as int, p.x as int, c);
    let q = Position { x: (p.x + 1) as u16, y: p.y };
    assert(b2[p.y as int] == b[p.y as int].insert(p.x as int, c));
    assert(b2[p.y as int].remove(p.x as int) =~= b[p.y as int]);
    assert(delete_before_buf(b2, q) =~~= b);
}

/// A copy of the characters of `line` from `start` (inclusive) to `end`
/// (exclusive).
pub fn copy_range(line: &Vec<char>, start: usize, end: usize) -> (r: Vec<char>)
    requires
        start <= end <= line@.len(),
    ensures
        r@ == line@.subrange(start as int, end as int),
{
    let mut r: Vec<char> = Vec::new();
    let mut i: usize = start;
    while i < end
        invariant
            start <= i <= end <= line@.len(),
            r@ == line@.subrange(start as int, i as int),
        decreases end - i,
    {
        r.push(line[i]);
        i = i + 1;
        proof {
            assert(r@ =~= line@.subrange(start as int, i as int));
        }
    }
    r
}

} // verus!
