//! The raw-input model: key presses with a code and a modifier, the only
//! events the runtime's components distinguish.  The host translates the
//! terminal backend's events into these values before dispatch.

use vstd::prelude::*;

verus! {

/// A key code.  Navigational keys, the editing keys the form fields react
/// to, and printable characters.
#[derive(Clone, Copy, PartialEq, Eq, Structural, Debug)]
pub enum KeyCode {
    Char(char),
    Up,
    Down,
    Left,
    Right,
    Enter,
    Esc,
    Tab,
    BackTab,
    Backspace,
}

/// The modifier held while a key was pressed.  The runtime only ever
/// distinguishes "none", "shift" and "control".
#[derive(Clone, Copy, PartialEq, Eq, Structural, Debug)]
pub enum KeyModifiers {
    Empty,
    Shift,
    Control,
}

/// One key press.
#[derive(Clone, Copy, PartialEq, Eq, Structural, Debug)]
pub struct KeyEvent {
    pub code: KeyCode,
    pub modifiers: KeyModifiers,
}

impl KeyEvent {
    /// A key press without modifiers.
    pub fn plain(code: KeyCode) -> (e: KeyEvent)
        ensures
            e == (KeyEvent { code, modifiers: KeyModifiers::Empty }),
    {
        KeyEvent { code, modifiers: KeyModifiers::Empty }
    }
}

/// A raw event handed to a component.  Only key presses reach the verified
/// runtime; everything else (resize, paste) stays with the host.
#[derive(Clone, Copy, PartialEq, Eq, Structural, Debug)]
pub enum ComponentEvent {
    Key(KeyEvent),
}

} // verus!
