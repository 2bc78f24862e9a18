use vstd::prelude::*;

verus! {

/// The error kinds of the editing core. A failed operation leaves the state
/// unchanged, and the event loop treats both kinds as a no-op.
#[derive(Clone, Copy, Debug, PartialEq, Eq, Structural)]
pub enum EditError {
    /// A position or index lies outside the valid bounds of the buffer.
    OutOfRange,
    /// A selection copy was requested over a malformed or out-of-bounds range.
    InvalidRange,
}

} // verus!
