//! The input events that the interface reacts to, reduced to what its rules read.

use vstd::prelude::*;

verus! {

/// The key that was pressed.
#[derive(Clone, Copy, Debug, PartialEq, Eq, Structural)]
pub enum KeyCode {
    Backspace,
    Enter,
    Left,
    Right,
    Home,
    End,
    Tab,
    BackTab,
    Esc,
    Char(char),
    /// Any key that no rule mentions.
    Other,
}

/// The modifier keys held down with a key.
#[derive(Clone, Copy, Debug, PartialEq, Eq, Structural)]
pub struct KeyModifiers {
    pub shift: bool,
    pub control: bool,
}

/// A key press.
#[derive(Clone, Copy, Debug, PartialEq, Eq, Structural)]
pub struct KeyEvent {
    pub code: KeyCode,
    pub modifiers: KeyModifiers,
}

/// One event from the terminal.
#[derive(Clone, Copy, Debug, PartialEq, Eq, Structural)]
pub enum Event {
    Key(KeyEvent),
    Mouse,
    /// The terminal now has this many columns and rows.
    Resize(u16, u16),
    /// Focus changes, pastes and whatever else needs no reaction.
    Other,
}

impl KeyEvent {
    /// A key pressed without modifiers.
    pub fn plain(code: KeyCode) -> (out: KeyEvent)
        ensures
            out == (KeyEvent { code, modifiers: KeyModifiers { shift: false, control: false } }),
    {
        KeyEvent { code, modifiers: KeyModifiers { shift: false, control: false } }
    }
}

} // verus!
