use vstd::prelude::*;

verus! {

/// The key of a key press.
#[derive(Clone, Copy, Debug, PartialEq, Eq, Structural, Hash)]
pub enum KeyCode {
    Backspace,
    Enter,
    Left,
    Right,
    Up,
    Down,
    Home,
    End,
    PageUp,
    PageDown,
    Tab,
    BackTab,
    Delete,
    Insert,
    F(u8),
    Char(char),
    Null,
    Esc,
    CapsLock,
    ScrollLock,
    NumLock,
    PrintScreen,
    Pause,
    Menu,
    KeypadBegin,
    Media,
    Modifier,
}

/// The shift modifier bit.
pub const SHIFT: u8 = 1;

/// The control modifier bit.
pub const CONTROL: u8 = 2;

/// The alt modifier bit.
pub const ALT: u8 = 4;

/// One key press: a key and the set of modifiers held, as bits.
#[derive(Clone, Copy, Debug, PartialEq, Eq, Structural, Hash)]
pub struct KeyEvent {
    pub code: KeyCode,
    pub modifiers: u8,
}

impl KeyEvent {
    pub fn new(code: KeyCode, modifiers: u8) -> (r: KeyEvent)
        ensures
            r == (KeyEvent { code, modifiers }),
    {
        KeyEvent { code, modifiers }
    }
}

} // verus!
