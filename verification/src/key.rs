//! A key press as the library sees it: the key, and the modifier keys held
//! with it.

use vstd::prelude::*;

verus! {

/// The keys that change what is shown; every other key is `Other`.
#[derive(Clone, Copy, Debug, PartialEq, Eq, Structural)]
pub enum KeyCode {
    Tab,
    BackTab,
    Char(char),
    Other,
}

/// The modifier bit of the control key.
pub const CONTROL: u8 = 0b0000_0010;

/// A key press. `modifiers` holds one bit per modifier key that was held.
#[derive(Clone, Copy, Debug, PartialEq, Eq, Structural)]
pub struct KeyEvent {
    pub code: KeyCode,
    pub modifiers: u8,
}

impl KeyEvent {
    pub fn new(code: KeyCode, modifiers: u8) -> (r: KeyEvent)
        ensures
            r == (KeyEvent { code, modifiers }),
    {
        KeyEvent { code, modifiers }
    }
}

} // verus!
