use vstd::prelude::*;

verus! {

/// One decoded key press, as delivered by the terminal event source.
#[derive(Clone, Copy, Debug, PartialEq, Eq, Structural)]
pub enum KeyInput {
    Up,
    Down,
    Left,
    Right,
    Enter,
    Backspace,
    /// A plain printable character.
    Char(char),
    /// A character pressed together with the Control modifier.
    Ctrl(char),
    /// A character pressed together with the Alt modifier.
    Alt(char),
    /// Any other key; the editor ignores it.
    Other,
}

} // verus!
