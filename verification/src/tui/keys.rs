//! Key presses as the interface sees them: the key and whether Control was
//! held.

use vstd::prelude::*;

verus! {

/// A key.
#[derive(Debug, Clone, Copy, PartialEq, Eq, Structural)]
pub enum KeyCode {
    Char(char),
    Backspace,
    Delete,
    Enter,
    Esc,
    Left,
    Right,
    Up,
    Down,
    Home,
    End,
    PageUp,
    PageDown,
    Tab,
    BackTab,
    /// A function key, by number.
    F(u8),
    /// Any other key.
    Other,
}

/// A key press.
#[derive(Debug, Clone, Copy, PartialEq, Eq, Structural)]
pub struct KeyEvent {
    pub code: KeyCode,
    /// Whether Control was held.
    pub ctrl: bool,
}

impl KeyEvent {
    /// A press of `code` without Control.
    pub fn new(code: KeyCode) -> (r: Self)
        ensures
            r.code == code,
            !r.ctrl,
    {
        KeyEvent { code, ctrl: false }
    }

    /// A press of `code` with Control held.
    pub fn with_ctrl(code: KeyCode) -> (r: Self)
        ensures
            r.code == code,
            r.ctrl,
    {
        KeyEvent { code, ctrl: true }
    }
}

} // verus!
