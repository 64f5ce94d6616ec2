//! Plain key-event values handed to the core by the surrounding shell.
//!
//! The terminal backend delivers its own event type; the shell translates
//! each event into a `KeyPress` before the core sees it. The core reacts
//! only to press events and ignores releases and repeats.

use vstd::prelude::*;

verus! {

/// The logical code carried by a key event, reduced to what the core reads.
#[derive(Clone, Copy, PartialEq, Eq, Structural, Debug)]
pub enum Key {
    Char(char),
    Backspace,
    Delete,
    Left,
    Right,
    Up,
    Down,
    Esc,
    Other,
}

/// One key event: its logical code, whether the control modifier was held,
/// and whether this is a press (as opposed to a release or repeat).
#[derive(Clone, Copy, PartialEq, Eq, Structural, Debug)]
pub struct KeyPress {
    pub key: Key,
    pub ctrl: bool,
    pub pressed: bool,
}

} // verus!
