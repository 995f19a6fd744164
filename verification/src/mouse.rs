//! Mouse event types and decoders for raw-input records.

use vstd::prelude::*;

verus! {

/// The unit delta of one wheel notch, as the platform defines it.
pub const WHEEL_DELTA: i16 = 120;

/// The platform default for lines to scroll per wheel notch, used when the
/// live scroll-setting query fails.
pub const WHEEL_SCROLL_LINES_DEFAULT: u32 = 3;

/// Move-mode flag word: relative movement.
pub const MOUSE_MOVE_RELATIVE: u16 = 0x0000;
/// Move-mode bit: absolute positioning.
pub const MOUSE_MOVE_ABSOLUTE: u16 = 0x0001;
/// Move-mode bit: coordinates are mapped to the whole virtual desktop.
pub const MOUSE_MOVE_VIRTUAL_DESKTOP: u16 = 0x0002;
/// Move-mode bit: mouse attributes changed.
pub const MOUSE_MOVE_ATTRIBUTE_CHANGE: u16 = 0x0004;

/// How the coordinates of a mouse record are to be interpreted.
#[derive(Debug, Clone, Copy, PartialEq, Eq, Structural)]
pub enum MouseMoveMode {
    /// Relative movement (the common case).
    Relative,
    /// Absolute positioning.
    Absolute,
    /// Absolute positioning over the whole virtual desktop.
    VirtualDesktop,
    /// Mouse attributes changed.
    AttributeChange,
    /// Any other flag word, carried through unchanged.
    Unknown(u16),
}

/// The move mode that the 16-bit flag word `flags` decodes to.
pub open spec fn spec_move_mode(flags: u16) -> MouseMoveMode {
    if flags == MOUSE_MOVE_RELATIVE {
        MouseMoveMode::Relative
    } else if flags == MOUSE_MOVE_ABSOLUTE {
        MouseMoveMode::Absolute
    } else if flags == MOUSE_MOVE_ABSOLUTE | MOUSE_MOVE_VIRTUAL_DESKTOP {
        MouseMoveMode::VirtualDesktop
    } else if flags == MOUSE_MOVE_ATTRIBUTE_CHANGE {
        MouseMoveMode::AttributeChange
    } else {
        MouseMoveMode::Unknown(flags)
    }
}

impl MouseMoveMode {
    /// Decodes a 16-bit move-mode flag word; total over all flag words.
    pub fn from(flags: u16) -> (r: MouseMoveMode)
        ensures
            r == spec_move_mode(flags),
    {
        if flags == MOUSE_MOVE_RELATIVE {
            MouseMoveMode::Relative
        } else if flags == MOUSE_MOVE_ABSOLUTE {
            MouseMoveMode::Absolute
        } else if flags == MOUSE_MOVE_ABSOLUTE | MOUSE_MOVE_VIRTUAL_DESKTOP {
            MouseMoveMode::VirtualDesktop
        } else if flags == MOUSE_MOVE_ATTRIBUTE_CHANGE {
            MouseMoveMode::AttributeChange
        } else {
            MouseMoveMode::Unknown(flags)
        }
    }
}

/// Button-flag bit: left button pressed.
pub const MOUSE_BUTTON_LEFT_DOWN: u16 = 0x0001;
/// Button-flag bit: left button released.
pub const MOUSE_BUTTON_LEFT_UP: u16 = 0x0002;
/// Button-flag bit: right button pressed.
pub const MOUSE_BUTTON_RIGHT_DOWN: u16 = 0x0004;
/// Button-flag bit: right button released.
pub const MOUSE_BUTTON_RIGHT_UP: u16 = 0x0008;
/// Button-flag bit: middle button pressed.
pub const MOUSE_BUTTON_MIDDLE_DOWN: u16 = 0x0010;
/// Button-flag bit: middle button released.
pub const MOUSE_BUTTON_MIDDLE_UP: u16 = 0x0020;
/// Button-flag bit: first extra button pressed.
pub const MOUSE_BUTTON_XBUTTON1_DOWN: u16 = 0x0040;
/// Button-flag bit: first extra button released.
pub const MOUSE_BUTTON_XBUTTON1_UP: u16 = 0x0080;
/// Button-flag bit: second extra button pressed.
pub const MOUSE_BUTTON_XBUTTON2_DOWN: u16 = 0x0100;
/// Button-flag bit: second extra button released.
pub const MOUSE_BUTTON_XBUTTON2_UP: u16 = 0x0200;
/// Button-flag bit: the vertical wheel turned; the button-data field holds
/// the signed delta.
pub const MOUSE_BUTTON_WHEEL_VERTICAL: u16 = 0x0400;
/// Button-flag bit: the horizontal wheel turned; the button-data field holds
/// the signed delta.
pub const MOUSE_BUTTON_WHEEL_HORIZONTAL: u16 = 0x0800;

/// A button transition or wheel turn reported by a mouse record.
///
/// Wheel variants carry the number of lines to scroll: the notch count of the
/// delta times the system's lines-per-notch setting.
#[derive(Debug, Clone, Copy, PartialEq, Eq, Structural)]
pub enum MouseButtonAction {
    /// Left button pressed.
    LeftDown,
    /// Left button released.
    LeftUp,
    /// Right button pressed.
    RightDown,
    /// Right button released.
    RightUp,
    /// Middle button pressed.
    MiddleDown,
    /// Middle button released.
    MiddleUp,
    /// First extra button pressed.
    XButton1Down,
    /// First extra button released.
    XButton1Up,
    /// Second extra button pressed.
    XButton2Down,
    /// Second extra button released.
    XButton2Up,
    /// Wheel turned away from the user by the given number of lines.
    WheelUp(u32),
    /// Wheel turned toward the user by the given number of lines.
    WheelDown(u32),
    /// Wheel turned to the right by the given number of lines.
    WheelRight(u32),
    /// Wheel turned to the left by the given number of lines.
    WheelLeft(u32),
    /// No button transition in this record.
    NoAction,
}

/// The signed notch count of the wheel delta `data`.
///
/// The button-data field is a 16-bit two's-complement delta; dividing it by
/// the notch unit, truncating toward zero, gives the number of notches.
pub open spec fn spec_wheel_notches(data: u16) -> int {
    if data < 0x8000 {
        (data as int) / (WHEEL_DELTA as int)
    } else {
        -((0x10000 - data as int) / (WHEEL_DELTA as int))
    }
}

/// The number of lines a wheel delta `data` scrolls under the scroll setting
/// `lines`: the notch count magnitude times the setting, saturated at the
/// largest representable count.
pub open spec fn spec_wheel_lines(data: u16, lines: u32) -> u32 {
    let n = spec_wheel_notches(data);
    let mag = if n >= 0 {
        n
    } else {
        -n
    };
    let prod = mag * (lines as int);
    if prod > u32::MAX as int {
        u32::MAX
    } else {
        prod as u32
    }
}

/// The action that a wheel record decodes to: up or right for a positive
/// notch count, down or left for a negative one, nothing for a delta smaller
/// than one notch.
pub open spec fn spec_wheel_action(vertical: bool, data: u16, lines: u32) -> MouseButtonAction {
    let n = spec_wheel_notches(data);
    if n > 0 {
        if vertical {
            MouseButtonAction::WheelUp(spec_wheel_lines(data, lines))
        } else {
            MouseButtonAction::WheelRight(spec_wheel_lines(data, lines))
        }
    } else if n < 0 {
        if vertical {
            MouseButtonAction::WheelDown(spec_wheel_lines(data, lines))
        } else {
            MouseButtonAction::WheelLeft(spec_wheel_lines(data, lines))
        }
    } else {
        MouseButtonAction::NoAction
    }
}

/// The action that the button-flag word `flags` decodes to, with `data` as
/// the wheel delta and `lines` as the scroll setting. The transition bits are
/// mutually exclusive per record; a word that is not exactly one recognized
/// bit decodes to `NoAction`.
pub open spec fn spec_button_action(flags: u16, data: u16, lines: u32) -> MouseButtonAction {
    if flags == MOUSE_BUTTON_LEFT_DOWN {
        MouseButtonAction::LeftDown
    } else if flags == MOUSE_BUTTON_LEFT_UP {
        MouseButtonAction::LeftUp
    } else if flags == MOUSE_BUTTON_RIGHT_DOWN {
        MouseButtonAction::RightDown
    } else if flags == MOUSE_BUTTON_RIGHT_UP {
        MouseButtonAction::RightUp
    } else if flags == MOUSE_BUTTON_MIDDLE_DOWN {
        MouseButtonAction::MiddleDown
    } else if flags == MOUSE_BUTTON_MIDDLE_UP {
        MouseButtonAction::MiddleUp
    } else if flags == MOUSE_BUTTON_XBUTTON1_DOWN {
        MouseButtonAction::XButton1Down
    } else if flags == MOUSE_BUTTON_XBUTTON1_UP {
        MouseButtonAction::XButton1Up
    } else if flags == MOUSE_BUTTON_XBUTTON2_DOWN {
        MouseButtonAction::XButton2Down
    } else if flags == MOUSE_BUTTON_XBUTTON2_UP {
        MouseButtonAction::XButton2Up
    } else if flags == MOUSE_BUTTON_WHEEL_VERTICAL {
        spec_wheel_action(true, data, lines)
    } else if flags == MOUSE_BUTTON_WHEEL_HORIZONTAL {
        spec_wheel_action(false, data, lines)
    } else {
        MouseButtonAction::NoAction
    }
}

/// Applies the scroll-setting fallback policy: the queried lines-per-notch
/// value when the query succeeded, the platform default otherwise.
pub fn wheel_scroll_lines_or_default(query: Option<u32>) -> (r: u32)
    ensures
        r == match query {
            Some(lines) => lines,
            None => WHEEL_SCROLL_LINES_DEFAULT,
        },
{
    match query {
        Some(lines) => lines,
        None => WHEEL_SCROLL_LINES_DEFAULT,
    }
}

/// Decodes a wheel delta into an action under the scroll setting `lines`.
fn wheel_action(vertical: bool, data: u16, lines: u32) -> (r: MouseButtonAction)
    ensures
        r == spec_wheel_action(vertical, data, lines),
{
    let negative: bool = data >= 0x8000;
    let notches: u16 = if data < 0x8000 {
        data / 120
    } else {
        ((0xFFFF - data) + 1) / 120
    };
    if notches == 0 {
        return MouseButtonAction::NoAction;
    }
    proof {
        vstd::arithmetic::mul::lemma_mul_upper_bound(
            notches as int,
            0xFFFF,
            lines as int,
            0xFFFF_FFFF,
        );
    }
    let prod: u64 = (notches as u64) * (lines as u64);
    let scrolled: u32 = if prod > u32::MAX as u64 {
        u32::MAX
    } else {
        prod as u32
    };
    if negative {
        if vertical {
            MouseButtonAction::WheelDown(scrolled)
        } else {
            MouseButtonAction::WheelLeft(scrolled)
        }
    } else {
        if vertical {
            MouseButtonAction::WheelUp(scrolled)
        } else {
            MouseButtonAction::WheelRight(scrolled)
        }
    }
}

/// Decodes a button-flag word and wheel delta into the action they report,
/// under the scroll setting `scroll_lines`; total over all inputs.
pub fn button_flags_to_action(button_flags: u16, button_data: u16, scroll_lines: u32) -> (r:
    MouseButtonAction)
    ensures
        r == spec_button_action(button_flags, button_data, scroll_lines),
{
    if button_flags == MOUSE_BUTTON_LEFT_DOWN {
        MouseButtonAction::LeftDown
    } else if button_flags == MOUSE_BUTTON_LEFT_UP {
        MouseButtonAction::LeftUp
    } else if button_flags == MOUSE_BUTTON_RIGHT_DOWN {
        MouseButtonAction::RightDown
    } else if button_flags == MOUSE_BUTTON_RIGHT_UP {
        MouseButtonAction::RightUp
    } else if button_flags == MOUSE_BUTTON_MIDDLE_DOWN {
        MouseButtonAction::MiddleDown
    } else if button_flags == MOUSE_BUTTON_MIDDLE_UP {
        MouseButtonAction::MiddleUp
    } else if button_flags == MOUSE_BUTTON_XBUTTON1_DOWN {
        MouseButtonAction::XButton1Down
    } else if button_flags == MOUSE_BUTTON_XBUTTON1_UP {
        MouseButtonAction::XButton1Up
    } else if button_flags == MOUSE_BUTTON_XBUTTON2_DOWN {
        MouseButtonAction::XButton2Down
    } else if button_flags == MOUSE_BUTTON_XBUTTON2_UP {
        MouseButtonAction::XButton2Up
    } else if button_flags == MOUSE_BUTTON_WHEEL_VERTICAL {
        wheel_action(true, button_data, scroll_lines)
    } else if button_flags == MOUSE_BUTTON_WHEEL_HORIZONTAL {
        wheel_action(false, button_data, scroll_lines)
    } else {
        MouseButtonAction::NoAction
    }
}

/// Every move-mode flag word and every button-flag word decodes to exactly
/// one defined variant: the decoders are total, and an unrecognized move-mode
/// word is preserved in `Unknown` while an unrecognized button-flag word
/// decodes to `None`, never to an absence of a result.
pub proof fn lemma_mouse_decoders_total(flags: u16, button_flags: u16, data: u16, lines: u32)
    ensures
        spec_move_mode(flags) == MouseMoveMode::Relative || spec_move_mode(flags)
            == MouseMoveMode::Absolute || spec_move_mode(flags) == MouseMoveMode::VirtualDesktop
            || spec_move_mode(flags) == MouseMoveMode::AttributeChange || spec_move_mode(flags)
            == MouseMoveMode::Unknown(flags),
        spec_button_action(button_flags, data, lines) == MouseButtonAction::LeftDown
            || spec_button_action(button_flags, data, lines) == MouseButtonAction::LeftUp
            || spec_button_action(button_flags, data, lines) == MouseButtonAction::RightDown
            || spec_button_action(button_flags, data, lines) == MouseButtonAction::RightUp
            || spec_button_action(button_flags, data, lines) == MouseButtonAction::MiddleDown
            || spec_button_action(button_flags, data, lines) == MouseButtonAction::MiddleUp
            || spec_button_action(button_flags, data, lines) == MouseButtonAction::XButton1Down
            || spec_button_action(button_flags, data, lines) == MouseButtonAction::XButton1Up
            || spec_button_action(button_flags, data, lines) == MouseButtonAction::XButton2Down
            || spec_button_action(button_flags, data, lines) == MouseButtonAction::XButton2Up
            || spec_button_action(button_flags, data, lines) == MouseButtonAction::WheelUp(
            spec_wheel_lines(data, lines),
        ) || spec_button_action(button_flags, data, lines) == MouseButtonAction::WheelDown(
            spec_wheel_lines(data, lines),
        ) || spec_button_action(button_flags, data, lines) == MouseButtonAction::WheelRight(
            spec_wheel_lines(data, lines),
        ) || spec_button_action(button_flags, data, lines) == MouseButtonAction::WheelLeft(
            spec_wheel_lines(data, lines),
        ) || spec_button_action(button_flags, data, lines) == MouseButtonAction::NoAction,
{
}

/// A wheel line count is never negative and, whenever it is representable,
/// it is exactly the scroll setting scaled by the number of notches in the
/// delta: the magnitude of the notch count times the lines-per-notch
/// setting.
pub proof fn lemma_wheel_lines_scaled(data: u16, lines: u32)
    ensures
        ({
            let n = spec_wheel_notches(data);
            let mag = if n >= 0 {
                n
            } else {
                -n
            };
            mag * lines <= u32::MAX ==> spec_wheel_lines(data, lines) == mag * lines
        }),
{
}

/// The plain fields of a raw mouse record, as the platform reports them.
///
/// This is the decoded form of the fixed mouse sub-structure of a raw
/// record: every field is a plain integer straight from the hardware report,
/// before any bit decoding.
#[derive(Debug, Clone, Copy, PartialEq, Eq, Structural)]
pub struct MouseRecord {
    /// Raw move-mode flag word.
    pub flags: u16,
    /// Raw button-flag word (one transition bit per record).
    pub button_flags: u16,
    /// Wheel delta for wheel records, as a 16-bit two's-complement value.
    pub button_data: u16,
    /// Raw state of the mouse buttons.
    pub raw_buttons: u32,
    /// Movement or position along the X axis.
    pub last_x: i32,
    /// Movement or position along the Y axis.
    pub last_y: i32,
    /// Additional driver or hardware information.
    pub extra_information: u32,
}

/// Data for a mouse event, decoded from a raw mouse record under a given
/// scroll setting.
#[derive(Debug, Clone, Copy, PartialEq, Eq, Structural)]
pub struct RawMouseEvent {
    /// The decoded move mode.
    pub move_mode: MouseMoveMode,
    /// The decoded button transition or wheel turn, if any.
    pub button_action: MouseButtonAction,
    /// Raw state of the mouse buttons.
    pub raw_buttons: u32,
    /// Movement or position along the X axis.
    pub last_x: i32,
    /// Movement or position along the Y axis.
    pub last_y: i32,
    /// Additional driver or hardware information.
    pub extra_information: u32,
}

/// The mouse event that the record `r` decodes to under the scroll setting
/// `lines`.
pub open spec fn spec_mouse_event(r: MouseRecord, lines: u32) -> RawMouseEvent {
    RawMouseEvent {
        move_mode: spec_move_mode(r.flags),
        button_action: spec_button_action(r.button_flags, r.button_data, lines),
        raw_buttons: r.raw_buttons,
        last_x: r.last_x,
        last_y: r.last_y,
        extra_information: r.extra_information,
    }
}

impl RawMouseEvent {
    /// Decodes a raw mouse record into an event under the scroll setting
    /// `scroll_lines`; total over all records.
    pub fn from(mouse: &MouseRecord, scroll_lines: u32) -> (r: RawMouseEvent)
        ensures
            r == spec_mouse_event(*mouse, scroll_lines),
    {
        RawMouseEvent {
            move_mode: MouseMoveMode::from(mouse.flags),
            button_action: button_flags_to_action(
                mouse.button_flags,
                mouse.button_data,
                scroll_lines,
            ),
            raw_buttons: mouse.raw_buttons,
            last_x: mouse.last_x,
            last_y: mouse.last_y,
            extra_information: mouse.extra_information,
        }
    }
}

} // verus!
