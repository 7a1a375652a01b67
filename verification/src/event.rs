//! Input events as the cycle sees them.

use vstd::prelude::*;
use crossterm::event::KeyEvent;
use crossterm::event::MouseEvent;

verus! {

/// crossterm's `KeyEvent`: one key press with its modifiers. The library
/// carries such a value from the terminal to the application and never looks
/// inside it.
#[verifier::external_type_specification]
#[verifier::external_body]
pub struct ExKeyEvent(KeyEvent);

/// crossterm's `MouseEvent`: one mouse action with its position. Carried,
/// never read.
#[verifier::external_type_specification]
#[verifier::external_body]
pub struct ExMouseEvent(MouseEvent);

/// One input event read from the terminal.
#[derive(Debug)]
pub enum Event {
    /// The terminal gained focus.
    FocusGained,
    /// The terminal lost focus.
    FocusLost,
    /// A key was pressed.
    Key(KeyEvent),
    /// The mouse moved or a button changed.
    Mouse(MouseEvent),
    /// Text was pasted into the terminal.
    Paste(String),
    /// The terminal was resized to this many columns and rows.
    Resize(u16, u16),
}

impl Event {
    /// The key event that this event holds, if it is one.
    pub open spec fn key(self) -> Option<KeyEvent> {
        match self {
            Event::Key(key) => Some(key),
            _ => None,
        }
    }

    /// Picks the key event out of an input event. Only key events reach the
    /// application; every other kind of event yields `None`.
    pub fn into_key(self) -> (key: Option<KeyEvent>)
        ensures
            key == self.key(),
    {
        match self {
            Event::Key(key) => Some(key),
            _ => None,
        }
    }
}

} // verus!
