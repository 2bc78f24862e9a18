use vstd::prelude::*;

use crate::buffer::MAX_EXTENT;
use crate::buffer::TextBuffer;
use crate::buffer::buf_wf;
use crate::buffer::copy_range;
use crate::buffer::lines_view;
use crate::error::EditError;
use crate::position::Position;

verus! {

/// The earlier of the selection's two ends: extraction always proceeds from
/// it, whichever of anchor and cursor it happens to be.
pub open spec fn sel_first(p: Position, q: Position) -> Position {
    if p.y < q.y {
        p
    } else if q.y < p.y {
        q
    } else if p.x <= q.x {
        p
    } else {
        q
    }
}

/// The later of the selection's two ends.
pub open spec fn sel_last(p: Position, q: Position) -> Position {
    if p.y < q.y {
        q
    } else if q.y < p.y {
        p
    } else if p.x <= q.x {
        q
    } else {
        p
    }
}

/// Whether the range spanned by the two ends can be extracted: both rows
/// exist and both boundary columns lie within their lines.
pub open spec fn capture_ok(b: Seq<Seq<char>>, p: Position, q: Position) -> bool {
    let f = sel_first(p, q);
    let t = sel_last(p, q);
    &&& f.y < b.len()
    &&& t.y < b.len()
    &&& f.x <= b[f.y as int].len()
    &&& t.x <= b[t.y as int].len()
}

/// The text spanned by the two ends, in document order: on a single row the
/// slice between the two columns; across rows the tail of the first line,
/// the full lines strictly between, and the head of the last line.
pub open spec fn capture_spec(b: Seq<Seq<char>>, p: Position, q: Position) -> Seq<Seq<char>> {
    let f = sel_first(p, q);
    let t = sel_last(p, q);
    if f.y == t.y {
        seq![b[f.y as int].subrange(f.x as int, t.x as int)]
    } else {
        seq![b[f.y as int].skip(f.x as int)] + b.subrange(f.y + 1, t.y as int) + seq![
            b[t.y as int].take(t.x as int),
        ]
    }
}

/// Extracts the text spanned by the two ends without mutating the buffer.
/// Fails with `InvalidRange` when a boundary row does not exist or a
/// boundary column lies beyond its line.
pub fn capture(buf: &TextBuffer, p: Position, q: Position) -> (r: Result<Vec<Vec<char>>, EditError>)
    requires
        buf_wf(buf@),
    ensures
        r is Ok <==> capture_ok(buf@, p, q),
        r matches Ok(v) ==> lines_view(v@) == capture_spec(buf@, p, q),
        r is Err ==> r == Err::<Vec<Vec<char>>, EditError>(EditError::InvalidRange),
{
    // Normalize the two ends so extraction runs from the earlier position.
    let (from, to) = if p.y < q.y {
        (p, q)
    } else if q.y < p.y {
        (q, p)
    } else if p.x <= q.x {
        (p, q)
    } else {
        (q, p)
    };
    let n = buf.line_count();
    if from.y as usize >= n || to.y as usize >= n {
        return Err(EditError::InvalidRange);
    }
    if from.x as usize > buf.line_len(from.y as usize) {
        return Err(EditError::InvalidRange);
    }
    if to.x as usize > buf.line_len(to.y as usize) {
        return Err(EditError::InvalidRange);
    }
    let mut out: Vec<Vec<char>> = Vec::new();
    if from.y == to.y {
        let line = &buf.lines[from.y as usize];
        out.push(copy_range(line, from.x as usize, to.x as usize));
        proof {
            assert(lines_view(out@) =~~= capture_spec(buf@, p, q));
        }
        return Ok(out);
    }
    let first_line = &buf.lines[from.y as usize];
    out.push(copy_range(first_line, from.x as usize, first_line.len()));
    let mut row: usize = from.y as usize + 1;
    while row < to.y as usize
        invariant
            from.y as usize + 1 <= row <= to.y as usize,
            to.y < buf@.len(),
            out@.len() == row - from.y as usize,
            out@[0]@ == buf@[from.y as int].skip(from.x as int),
            forall|i: int| 1 <= i < out@.len() ==> (#[trigger] out@[i])@ == buf@[from.y + i],
        decreases to.y as usize - row,
    {
        let ghost out_before = out@;
        let line = &buf.lines[row];
        out.push(copy_range(line, 0, line.len()));
        proof {
            assert(out@[out_before.len() as int]@ =~= buf@[row as int]);
        }
        row = row + 1;
    }
    let ghost out_before = out@;
    let last_line = &buf.lines[to.y as usize];
    out.push(copy_range(last_line, 0, to.x as usize));
    proof {
        assert(out@[out_before.len() as int]@ == buf@[to.y as int].take(to.x as int));
        assert(lines_view(out@) =~~= capture_spec(buf@, p, q));
    }
    Ok(out)
}

/// The line count after pasting `flen` fragments at row `y` into a buffer of
/// `blen` lines: fragments beyond the last line push new lines at the end.
pub open spec fn paste_len(blen: int, flen: int, y: int) -> int {
    if y + flen > blen {
        y + flen
    } else {
        blen
    }
}

/// Whether pasting `frags` at column `x` of row `y` succeeds: the insertion
/// column must lie within every existing target line, no merged line may
/// exceed the largest addressable length, and neither may the line count.
pub open spec fn paste_ok(b: Seq<Seq<char>>, frags: Seq<Seq<char>>, x: int, y: int) -> bool {
    &&& 0 <= y <= b.len()
    &&& forall|i: int|
        0 <= i < frags.len() && y + i < b.len() ==> x <= (#[trigger] b[y + i]).len() && b[y
            + i].len() + frags[i].len() <= MAX_EXTENT
    &&& paste_len(b.len() as int, frags.len() as int, y) <= MAX_EXTENT
}

/// The buffer after pasting: fragment `i` is inserted into line `y + i` at
/// column `x` when that row exists, and appended as a new line otherwise.
/// Nothing is ever overwritten.
pub open spec fn paste_at(b: Seq<Seq<char>>, frags: Seq<Seq<char>>, x: int, y: int) -> Seq<
    Seq<char>,
> {
    Seq::new(
        paste_len(b.len() as int, frags.len() as int, y) as nat,
        |r: int|
            if y <= r < y + frags.len() {
                if r < b.len() {
                    b[r].take(x) + frags[r - y] + b[r].skip(x)
                } else {
                    frags[r - y]
                }
            } else {
                b[r]
            },
    )
}

} // verus!
