//! The keys the broker reacts to, as plain values handed in by the
//! terminal input reader.

use vstd::prelude::*;

verus! {

/// A key event.
#[derive(Clone, Copy, PartialEq, Eq, Structural, Debug)]
pub enum Key {
    /// A function key `F1` ..= `F12`.
    F(u8),
    /// A printable character.
    Char(char),
    Up,
    Down,
    PageUp,
    PageDown,
    Enter,
    Esc,
    Backspace,
    /// Any key the broker ignores.
    Other,
}

} // verus!
