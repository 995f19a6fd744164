//! Normalized keyboard and mouse events sourced from a host platform's global
//! raw-input notification channel.
//!
//! The crate decodes the hardware-defined bit layouts of raw keyboard and
//! mouse records into typed event values, parses device-type-tagged binary
//! records, and models the lifecycle of the process-wide background listener:
//! singleton enforcement, the initialization handshake, per-notification
//! dispatch, fault containment, and ordered teardown.
//!
//! The platform boundary itself (device registration, the message pump, the
//! record-fetch call and the scroll-setting query) is left to the surrounding
//! program; everything here works on plain values handed across that boundary.

pub mod event;
pub mod keyboard;
pub mod listener;
pub mod mouse;
pub mod record;

pub use event::RawInputEvent;
pub use keyboard::{KeyEventMessage, KeyFlags, KeyboardRecord, RawKeyboardEvent, VirtualKey};
pub use listener::{ListenerEngine, ListenerRegistry, ListenerState};
pub use mouse::{MouseButtonAction, MouseMoveMode, MouseRecord, RawMouseEvent, button_flags_to_action};
pub use record::RawRecord;

use crate::keyboard::spec_keyboard_event;
use crate::mouse::spec_mouse_event;
use crate::record::{
    DEVICE_TYPE_KEYBOARD, DEVICE_TYPE_MOUSE, KEYBOARD_PAYLOAD_BYTES, MOUSE_PAYLOAD_BYTES,
    keyboard_record_of_bytes, mouse_record_of_bytes, spec_keyboard_record_of_bytes,
    spec_mouse_record_of_bytes,
};
use vstd::prelude::*;
use vstd::string::StringExecFns;

verus! {

/// The event that a record with discriminant `device_type` and payload bytes
/// `payload` parses to under the scroll setting `lines`: a keyboard or mouse
/// event when the discriminant names a supported device and the payload holds
/// its full sub-structure, and nothing otherwise.
pub open spec fn spec_parse_rawinput_event(
    device_type: u32,
    payload: Seq<u8>,
    lines: u32,
) -> Option<RawInputEvent> {
    if device_type == DEVICE_TYPE_KEYBOARD && payload.len() >= KEYBOARD_PAYLOAD_BYTES {
        Some(RawInputEvent::Keyboard(spec_keyboard_event(spec_keyboard_record_of_bytes(payload))))
    } else if device_type == DEVICE_TYPE_MOUSE && payload.len() >= MOUSE_PAYLOAD_BYTES {
        Some(RawInputEvent::Mouse(spec_mouse_event(spec_mouse_record_of_bytes(payload), lines)))
    } else {
        None
    }
}

/// Parses a raw record into a normalized event under the scroll setting
/// `scroll_lines`.
///
/// A record tagged with an unsupported device-type discriminant, or one whose
/// payload is shorter than the device's fixed sub-structure, yields no event:
/// the record is skipped as a whole, never decoded in part.
pub fn parse_rawinput_event(raw: &RawRecord, scroll_lines: u32) -> (r: Option<RawInputEvent>)
    ensures
        r == spec_parse_rawinput_event(raw.device_type, raw.payload@, scroll_lines),
{
    if raw.device_type == DEVICE_TYPE_KEYBOARD && raw.payload.len() >= KEYBOARD_PAYLOAD_BYTES {
        let rec = keyboard_record_of_bytes(&raw.payload);
        Some(RawInputEvent::Keyboard(RawKeyboardEvent::from(&rec)))
    } else if raw.device_type == DEVICE_TYPE_MOUSE && raw.payload.len() >= MOUSE_PAYLOAD_BYTES {
        let rec = mouse_record_of_bytes(&raw.payload);
        Some(RawInputEvent::Mouse(RawMouseEvent::from(&rec, scroll_lines)))
    } else {
        None
    }
}

/// A record whose device-type discriminant names neither the keyboard nor
/// the mouse parses to no event, whatever its payload holds: the record is
/// skipped silently rather than reported as an error.
pub proof fn lemma_unsupported_device_type_skipped(device_type: u32, payload: Seq<u8>, lines: u32)
    requires
        device_type != DEVICE_TYPE_KEYBOARD,
        device_type != DEVICE_TYPE_MOUSE,
    ensures
        spec_parse_rawinput_event(device_type, payload, lines) is None,
{
}

/// Error raised by listener operations and the platform boundary.
///
/// `WinApiError` wraps the diagnostic text of a failure surfaced by the
/// platform (registration, surface creation, or record fetch). `Other` covers
/// internal conditions: the singleton already being active, a breakdown of the
/// initialization handshake, or a captured worker fault.
#[derive(Debug, Clone, PartialEq, Eq)]
pub enum RawInputError {
    /// A failure reported by the platform, with its diagnostic text.
    WinApiError(String),
    /// An internal condition, with a description.
    Other(String),
}

impl RawInputError {
    /// Human-readable description of the error, prefixed by its category.
    pub fn message(&self) -> (r: String)
        ensures
            match self {
                RawInputError::WinApiError(m) => r@ == "Windows API error: "@ + m@,
                RawInputError::Other(m) => r@ == "Other error: "@ + m@,
            },
    {
        match self {
            RawInputError::WinApiError(m) => {
                String::from_str("Windows API error: ").concat(m.as_str())
            },
            RawInputError::Other(m) => String::from_str("Other error: ").concat(m.as_str()),
        }
    }
}

} // verus!
