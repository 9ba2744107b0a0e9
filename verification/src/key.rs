//! The library's model of one raw keyboard event: exactly the parts of a
//! terminal key press that the mappers inspect (the key itself and whether
//! the control modifier was held).
use vstd::prelude::*;

verus! {

/// Which key was pressed.
#[derive(Clone, Copy, PartialEq, Eq, Debug, Structural)]
pub enum KeyCode {
    /// A character key, printable or not.
    Char(char),
    Esc,
    Enter,
    Backspace,
    /// Any key the mappers never look at (arrows, function keys, ...).
    Other,
}

/// One raw key event as the collector hands it to a mapper.
#[derive(Clone, Copy, PartialEq, Eq, Debug, Structural)]
pub struct KeyEvent {
    pub code: KeyCode,
    /// True when the control modifier was held for this key.
    pub ctrl: bool,
}

impl KeyEvent {
    /// A plain key press without the control modifier.
    pub fn plain(code: KeyCode) -> (r: KeyEvent)
        ensures
            r == (KeyEvent { code, ctrl: false }),
    {
        KeyEvent { code, ctrl: false }
    }

    /// A key press with the control modifier held.
    pub fn with_ctrl(code: KeyCode) -> (r: KeyEvent)
        ensures
            r == (KeyEvent { code, ctrl: true }),
    {
        KeyEvent { code, ctrl: true }
    }
}

} // verus!
