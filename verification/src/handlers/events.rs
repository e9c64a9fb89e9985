//! Events the application reacts to.
use vstd::prelude::*;
use crate::keys::KeyEvent;

verus! {

/// An event: a key, a timer tick, a change of terminal size, or mouse input.
#[derive(Debug, Clone, Copy, PartialEq, Eq, Structural)]
pub enum AppEvent {
    /// A key was pressed
    Key(KeyEvent),
    /// The timer ticked
    Tick,
    /// The terminal was resized to the given width and height
    Resize(u16, u16),
    /// Mouse input
    Mouse,
}

} // verus!
