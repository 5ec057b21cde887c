//! Input events dispatched from the backend to the editor.

use vstd::prelude::*;

verus! {

/// `Key` presses accepted by the editor.
#[derive(Debug, Copy, Clone, Eq, PartialEq, Structural)]
pub enum Key {
    Enter,
    Tab,
    Backspace,
    Esc,
    Left,
    Right,
    Up,
    Down,
    Insert,
    Delete,
    Home,
    End,
    PageUp,
    PageDown,
    Char(char),
    Ctrl(char),
    Unknown,
}

/// `Event`s are dispatched from the backend to allow the application to
/// handle input. A failed read carries the text of the backend's error.
#[derive(Debug, Clone, PartialEq, Eq)]
pub enum Event {
    KeyPressed(Key),
    MouseInputReceived,
    WindowResized(u16, u16),
    ReadFailed(String),
}

} // verus!
