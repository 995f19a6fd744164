//! The normalized event union delivered to listener callbacks.

use crate::keyboard::RawKeyboardEvent;
use crate::mouse::RawMouseEvent;
use vstd::prelude::*;

verus! {

/// A normalized event from the raw-input channel: either a keyboard event or
/// a mouse event, fully decoded.
#[derive(Debug, Clone, Copy, PartialEq, Eq, Structural)]
pub enum RawInputEvent {
    /// A keyboard event (key press or release).
    Keyboard(RawKeyboardEvent),
    /// A mouse event (movement, button transition or wheel turn).
    Mouse(RawMouseEvent),
}

} // verus!
