use vstd::prelude::*;

verus! {

/// A zero-based, document-relative coordinate: `x` is the column within a
/// line, `y` is the row (the index of the line in the buffer).
#[derive(Clone, Copy, Debug, PartialEq, Eq, Structural)]
pub struct Position {
    pub x: u16,
    pub y: u16,
}

/// The dimensions of the visible terminal area, in character cells.
#[derive(Clone, Copy, Debug, PartialEq, Eq, Structural)]
pub struct Size {
    pub height: u16,
    pub width: u16,
}

} // verus!
