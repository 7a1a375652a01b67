//! What a hosted application offers to the cycle.

use vstd::prelude::*;
use crossterm::event::KeyEvent;

verus! {

/// An application that the cycle can host: it takes key events and says
/// when it wants to stop. How it draws itself is between the application and
/// whoever serves [`Request::Render`](crate::cycle::Request::Render); the
/// cycle only decides when.
pub trait App {
    /// Takes one key event.
    fn on_input_received(&mut self, event: KeyEvent);

    /// Whether the application wants the cycle to stop.
    fn is_closed(&self) -> bool;
}

/// An application that also does periodic work.
pub trait Ticked {
    /// Called once each time the tick interval has run out.
    fn on_tick(&mut self);
}

} // verus!
