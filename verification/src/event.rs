//! Key presses, as the editor reads them.

use vstd::prelude::*;

verus! {

/// A key.
#[derive(Clone, Copy, Debug, PartialEq, Eq, Structural)]
pub enum Key {
    Char(char),
    Esc,
    Enter,
    Backspace,
    Tab,
    Left,
    Right,
    Up,
    Down,
    /// Any other key.
    Null,
}

/// The modifier keys held down with a key.
#[derive(Clone, Copy, Debug, PartialEq, Eq, Structural)]
pub struct Mod {
    pub control: bool,
    pub alt: bool,
}

impl Mod {
    /// No modifier.
    pub fn none() -> (modifiers: Mod)
        ensures
            modifiers == (Mod { control: false, alt: false }),
    {
        Mod { control: false, alt: false }
    }

    /// The control key.
    pub fn control() -> (modifiers: Mod)
        ensures
            modifiers == (Mod { control: true, alt: false }),
    {
        Mod { control: true, alt: false }
    }

    /// The alt key.
    pub fn alt() -> (modifiers: Mod)
        ensures
            modifiers == (Mod { control: false, alt: true }),
    {
        Mod { control: false, alt: true }
    }
}

/// One key press.
#[derive(Clone, Copy, Debug, PartialEq, Eq, Structural)]
pub struct KeyEvent {
    pub code: Key,
    pub modifiers: Mod,
}

} // verus!
