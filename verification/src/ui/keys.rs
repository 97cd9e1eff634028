//! Key presses as the screens read them.

use vstd::prelude::*;

verus! {

/// The key that was pressed.
#[derive(Debug, Clone, Copy, PartialEq, Eq, Structural)]
pub enum KeyCode {
    Char(char),
    Backspace,
    Delete,
    Left,
    Right,
    Up,
    Down,
    Home,
    End,
    Enter,
    Esc,
    Tab,
    BackTab,
    PageUp,
    PageDown,
    /// Any key the screens do not react to.
    Other,
}

/// A key press: the key and whether Control was held.
#[derive(Debug, Clone, Copy, PartialEq, Eq, Structural)]
pub struct KeyEvent {
    pub code: KeyCode,
    pub ctrl: bool,
}

impl KeyEvent {
    /// A key press with the given modifier state.
    pub fn new(code: KeyCode, ctrl: bool) -> (res: Self)
        ensures
            res.code == code,
            res.ctrl == ctrl,
    {
        KeyEvent { code, ctrl }
    }

    /// A key press without modifiers.
    pub fn plain(code: KeyCode) -> (res: Self)
        ensures
            res.code == code,
            !res.ctrl,
    {
        KeyEvent { code, ctrl: false }
    }
}

} // verus!
