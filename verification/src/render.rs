use vstd::prelude::*;

use crate::buffer::TextBuffer;
use crate::buffer::copy_range;
use crate::position::Position;
use crate::position::Size;

verus! {

/// What one terminal row shows: a slice of a document line, or the
/// placeholder glyph for rows beyond the end of the buffer.
#[derive(Debug, PartialEq)]
pub enum ScreenRow {
    Line(Vec<char>),
    Placeholder,
}

/// One full redraw, decided but not yet written to the terminal: the content
/// of every visible row, and where on the screen the cursor marker goes, if
/// its document position is inside the viewport at all.
#[derive(Debug, PartialEq)]
pub struct Frame {
    pub rows: Vec<ScreenRow>,
    pub marker: Option<Position>,
}

/// A line as displayed: truncated to the terminal width, never scrolled
/// horizontally.
pub open spec fn truncated(l: Seq<char>, width: int) -> Seq<char> {
    if l.len() > width {
        l.take(width)
    } else {
        l
    }
}

/// The text a screen row shows, or `None` for the placeholder.
pub open spec fn row_view(r: ScreenRow) -> Option<Seq<char>> {
    match r {
        ScreenRow::Line(l) => Some(l@),
        ScreenRow::Placeholder => None,
    }
}

/// What screen row `i` must show: the document row `offset_y + i` truncated
/// to the width when it exists, the placeholder otherwise.
pub open spec fn row_spec(b: Seq<Seq<char>>, offset_y: int, width: int, i: int) -> Option<
    Seq<char>,
> {
    if offset_y + i < b.len() {
        Some(truncated(b[offset_y + i], width))
    } else {
        None
    }
}

/// Where the cursor marker goes on screen: its document row shifted by the
/// scroll offset, provided that row exists in the buffer and is one of the
/// `height` visible ones. A cursor outside the document gets no marker.
pub open spec fn marker_spec(cursor: Position, offset_y: int, height: int, line_count: int) -> Option<
    Position,
> {
    if offset_y <= cursor.y < offset_y + height && cursor.y < line_count {
        Some(Position { x: cursor.x, y: (cursor.y - offset_y) as u16 })
    } else {
        None
    }
}

/// Projects the buffer onto the viewport: a read-only decision of which
/// lines are visible, how each is truncated, and where the cursor marker is
/// placed. Nothing is mutated.
pub fn draw(buf: &TextBuffer, offset: Position, size: Size, cursor: Position) -> (f: Frame)
    ensures
        f.rows@.len() == size.height,
        forall|i: int|
            0 <= i < size.height ==> row_view(#[trigger] f.rows@[i]) == row_spec(
                buf@,
                offset.y as int,
                size.width as int,
                i,
            ),
        f.marker == marker_spec(cursor, offset.y as int, size.height as int, buf@.len() as int),
{
    let mut rows: Vec<ScreenRow> = Vec::new();
    let mut i: usize = 0;
    while i < size.height as usize
        invariant
            i <= size.height,
            rows@.len() == i,
            forall|j: int|
                0 <= j < i ==> row_view(#[trigger] rows@[j]) == row_spec(
                    buf@,
                    offset.y as int,
                    size.width as int,
                    j,
                ),
        decreases size.height as usize - i,
    {
        let doc = offset.y as usize + i;
        if doc < buf.line_count() {
            let line = &buf.lines[doc];
            let len = line.len();
            let end = if len > size.width as usize {
                size.width as usize
            } else {
                len
            };
            let shown = copy_range(line, 0, end);
            proof {
                assert(shown@ =~= truncated(buf@[doc as int], size.width as int));
            }
            rows.push(ScreenRow::Line(shown));
        } else {
            rows.push(ScreenRow::Placeholder);
        }
        i = i + 1;
    }
    let marker = if offset.y <= cursor.y && cursor.y - offset.y < size.height && (cursor.y
        as usize) < buf.line_count() {
        Some(Position { x: cursor.x, y: cursor.y - offset.y })
    } else {
        None
    };
    Frame { rows, marker }
}

} // verus!
