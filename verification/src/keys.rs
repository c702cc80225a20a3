//! The key events the session consumes. The terminal backend's own event
//! type is translated into this model at the boundary; keys the session
//! does not use arrive as `Other`.

use vstd::prelude::*;

verus! {

/// A key, as the mode state machine distinguishes them.
#[derive(Clone, Copy, Debug, PartialEq, Eq, Structural)]
pub enum KeyCode {
    Char(char),
    Enter,
    Esc,
    Backspace,
    Left,
    Right,
    Up,
    Down,
    Tab,
    Home,
    End,
    PageUp,
    PageDown,
    Other,
}

/// A key press together with whether the control modifier was held.
#[derive(Clone, Copy, Debug, PartialEq, Eq, Structural)]
pub struct KeyEvent {
    pub code: KeyCode,
    pub ctrl: bool,
}

/// The dedicated quit chord: control together with the `c` key.
pub open spec fn is_quit_key(key: KeyEvent) -> bool {
    key.ctrl && key.code == KeyCode::Char('c')
}

} // verus!
