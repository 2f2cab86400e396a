//! The decoded key events the prompts consume.
//!
//! The library never parses raw terminal bytes itself: the caller decodes
//! them into these events and feeds them in one at a time.

use vstd::prelude::*;

verus! {

/// One decoded key press.
#[derive(Debug, PartialEq, Eq, Structural, Clone, Copy)]
pub enum KeyEvent {
    /// A printable (or at least ordinary) character.
    Char(char),
    /// The left arrow.
    Left,
    /// The right arrow.
    Right,
    /// The up arrow.
    Up,
    /// The down arrow.
    Down,
    /// Return.
    Enter,
    /// Backspace.
    Backspace,
    /// Escape.
    Esc,
    /// A character pressed together with Control.
    Ctrl(char),
}

} // verus!
