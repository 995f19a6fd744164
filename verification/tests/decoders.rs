//! Tests for the keyboard and mouse bitfield decoders.

use mkb_raw_input::keyboard::{KEY_DOWN_MESSAGE, KEY_UP_MESSAGE, SYS_KEY_DOWN_MESSAGE, SYS_KEY_UP_MESSAGE};
use mkb_raw_input::mouse::{
    MOUSE_BUTTON_LEFT_DOWN, MOUSE_BUTTON_LEFT_UP, MOUSE_BUTTON_MIDDLE_DOWN, MOUSE_BUTTON_MIDDLE_UP,
    MOUSE_BUTTON_RIGHT_DOWN, MOUSE_BUTTON_RIGHT_UP, MOUSE_BUTTON_WHEEL_HORIZONTAL,
    MOUSE_BUTTON_WHEEL_VERTICAL, MOUSE_BUTTON_XBUTTON1_DOWN, MOUSE_BUTTON_XBUTTON1_UP,
    MOUSE_BUTTON_XBUTTON2_DOWN, MOUSE_BUTTON_XBUTTON2_UP, wheel_scroll_lines_or_default,
};
use mkb_raw_input::{
    KeyEventMessage, KeyFlags, KeyboardRecord, MouseButtonAction, MouseMoveMode, MouseRecord,
    RawKeyboardEvent, RawMouseEvent, VirtualKey, button_flags_to_action,
};

#[test]
fn test_keyboard_event_from_raw() {
    let raw = KeyboardRecord {
        make_code: 42u16,
        flags: 2u16, // key down, extended (E0)
        vkey: 65u16, // the A key
        message: 256u32,
        extra_information: 123u32,
    };

    let event = RawKeyboardEvent::from(&raw);
    assert_eq!(event.make_code, 42);
    assert_eq!(event.key_up, false);
    assert_eq!(event.extended, true);
    assert_eq!(event.message, KeyEventMessage::KeyDown);
    assert_eq!(event.vkey, VirtualKey::A);
    assert_eq!(event.extra_information, 123);
}

#[test]
fn test_mouse_event_from_raw() {
    let raw = MouseRecord {
        flags: 0x01u16, // absolute positioning
        button_flags: 0x0001,
        button_data: 120,
        raw_buttons: 0x8000u32,
        last_x: 10i32,
        last_y: -20i32,
        extra_information: 0xDEADBEEFu32,
    };

    let event = RawMouseEvent::from(&raw, 3);
    assert_eq!(event.move_mode, MouseMoveMode::Absolute);
    assert_eq!(event.button_action, MouseButtonAction::LeftDown);
    assert_eq!(event.raw_buttons, 0x8000);
    assert_eq!(event.last_x, 10);
    assert_eq!(event.last_y, -20);
    assert_eq!(event.extra_information, 0xDEADBEEF);
}

#[test]
fn key_flags_decode_break_and_prefixes() {
    let plain = KeyFlags::from(0x00);
    assert_eq!(plain.key_up, false);
    assert_eq!(plain.e0_prefix, false);
    assert_eq!(plain.e1_prefix, false);

    let e0 = KeyFlags::from(0x02);
    assert_eq!(e0.key_up, false);
    assert_eq!(e0.e0_prefix, true);
    assert_eq!(e0.e1_prefix, false);

    let break_e1 = KeyFlags::from(0x05);
    assert_eq!(break_e1.key_up, true);
    assert_eq!(break_e1.e0_prefix, false);
    assert_eq!(break_e1.e1_prefix, true);
}

#[test]
fn key_flags_extended_in_event() {
    // flags 0x00: neither prefix, pressed
    let ev = RawKeyboardEvent::from(&KeyboardRecord {
        make_code: 1,
        flags: 0x00,
        vkey: 65,
        message: 256,
        extra_information: 0,
    });
    assert_eq!(ev.key_up, false);
    assert_eq!(ev.extended, false);

    // flags 0x02: E0 prefix, pressed
    let ev = RawKeyboardEvent::from(&KeyboardRecord {
        make_code: 1,
        flags: 0x02,
        vkey: 65,
        message: 256,
        extra_information: 0,
    });
    assert_eq!(ev.key_up, false);
    assert_eq!(ev.extended, true);

    // flags 0x05: break plus E1 prefix
    let ev = RawKeyboardEvent::from(&KeyboardRecord {
        make_code: 1,
        flags: 0x05,
        vkey: 65,
        message: 257,
        extra_information: 0,
    });
    assert_eq!(ev.key_up, true);
    assert_eq!(ev.extended, true);
}

#[test]
fn virtual_key_catalog_and_fallback() {
    assert_eq!(VirtualKey::from(0x41), VirtualKey::A);
    assert_eq!(VirtualKey::from(0xEE), VirtualKey::Unknown(0xEE));
    assert_eq!(VirtualKey::from(0x1B), VirtualKey::Escape);
    assert_eq!(VirtualKey::from(0x20), VirtualKey::Space);
    assert_eq!(VirtualKey::from(0x70), VirtualKey::F1);
    assert_eq!(VirtualKey::from(0x87), VirtualKey::F24);
    assert_eq!(VirtualKey::from(0x69), VirtualKey::Numpad9);
    assert_eq!(VirtualKey::from(0xDF), VirtualKey::OEM8);
    assert_eq!(VirtualKey::from(0x00), VirtualKey::Unknown(0x00));
    assert_eq!(VirtualKey::from(0xFFFF), VirtualKey::Unknown(0xFFFF));
}

#[test]
fn key_event_message_decode() {
    assert_eq!(KeyEventMessage::from(KEY_DOWN_MESSAGE), KeyEventMessage::KeyDown);
    assert_eq!(KeyEventMessage::from(KEY_UP_MESSAGE), KeyEventMessage::KeyUp);
    assert_eq!(KeyEventMessage::from(SYS_KEY_DOWN_MESSAGE), KeyEventMessage::SysKeyDown);
    assert_eq!(KeyEventMessage::from(SYS_KEY_UP_MESSAGE), KeyEventMessage::SysKeyUp);
    assert_eq!(KeyEventMessage::from(999), KeyEventMessage::Unknown(999));
}

#[test]
fn move_mode_decode() {
    assert_eq!(MouseMoveMode::from(0x0000), MouseMoveMode::Relative);
    assert_eq!(MouseMoveMode::from(0x0001), MouseMoveMode::Absolute);
    assert_eq!(MouseMoveMode::from(0x0003), MouseMoveMode::VirtualDesktop);
    assert_eq!(MouseMoveMode::from(0x0004), MouseMoveMode::AttributeChange);
    assert_eq!(MouseMoveMode::from(0x0005), MouseMoveMode::Unknown(0x0005));
    assert_eq!(MouseMoveMode::from(0xFFFF), MouseMoveMode::Unknown(0xFFFF));
}

#[test]
fn button_transitions_decode() {
    assert_eq!(button_flags_to_action(MOUSE_BUTTON_LEFT_DOWN, 0, 3), MouseButtonAction::LeftDown);
    assert_eq!(button_flags_to_action(MOUSE_BUTTON_LEFT_UP, 0, 3), MouseButtonAction::LeftUp);
    assert_eq!(button_flags_to_action(MOUSE_BUTTON_RIGHT_DOWN, 0, 3), MouseButtonAction::RightDown);
    assert_eq!(button_flags_to_action(MOUSE_BUTTON_RIGHT_UP, 0, 3), MouseButtonAction::RightUp);
    assert_eq!(
        button_flags_to_action(MOUSE_BUTTON_MIDDLE_DOWN, 0, 3),
        MouseButtonAction::MiddleDown
    );
    assert_eq!(button_flags_to_action(MOUSE_BUTTON_MIDDLE_UP, 0, 3), MouseButtonAction::MiddleUp);
    assert_eq!(
        button_flags_to_action(MOUSE_BUTTON_XBUTTON1_DOWN, 0, 3),
        MouseButtonAction::XButton1Down
    );
    assert_eq!(
        button_flags_to_action(MOUSE_BUTTON_XBUTTON1_UP, 0, 3),
        MouseButtonAction::XButton1Up
    );
    assert_eq!(
        button_flags_to_action(MOUSE_BUTTON_XBUTTON2_DOWN, 0, 3),
        MouseButtonAction::XButton2Down
    );
    assert_eq!(
        button_flags_to_action(MOUSE_BUTTON_XBUTTON2_UP, 0, 3),
        MouseButtonAction::XButton2Up
    );
    // no recognized transition bit
    assert_eq!(button_flags_to_action(0x0000, 0, 3), MouseButtonAction::NoAction);
    assert_eq!(button_flags_to_action(0x1000, 0, 3), MouseButtonAction::NoAction);
}

#[test]
fn wheel_decode_vertical() {
    // one notch up at the default setting of three lines per notch
    assert_eq!(
        button_flags_to_action(MOUSE_BUTTON_WHEEL_VERTICAL, 120, 3),
        MouseButtonAction::WheelUp(3)
    );
    // two notches down
    assert_eq!(
        button_flags_to_action(MOUSE_BUTTON_WHEEL_VERTICAL, (-240i16) as u16, 3),
        MouseButtonAction::WheelDown(6)
    );
    // no rotation
    assert_eq!(
        button_flags_to_action(MOUSE_BUTTON_WHEEL_VERTICAL, 0, 3),
        MouseButtonAction::NoAction
    );
    // less than one notch in either direction
    assert_eq!(
        button_flags_to_action(MOUSE_BUTTON_WHEEL_VERTICAL, 60, 3),
        MouseButtonAction::NoAction
    );
    assert_eq!(
        button_flags_to_action(MOUSE_BUTTON_WHEEL_VERTICAL, (-60i16) as u16, 3),
        MouseButtonAction::NoAction
    );
}

#[test]
fn wheel_decode_horizontal() {
    assert_eq!(
        button_flags_to_action(MOUSE_BUTTON_WHEEL_HORIZONTAL, 120, 3),
        MouseButtonAction::WheelRight(3)
    );
    assert_eq!(
        button_flags_to_action(MOUSE_BUTTON_WHEEL_HORIZONTAL, (-120i16) as u16, 3),
        MouseButtonAction::WheelLeft(3)
    );
    assert_eq!(
        button_flags_to_action(MOUSE_BUTTON_WHEEL_HORIZONTAL, 0, 3),
        MouseButtonAction::NoAction
    );
}

#[test]
fn wheel_respects_scroll_setting() {
    assert_eq!(
        button_flags_to_action(MOUSE_BUTTON_WHEEL_VERTICAL, 120, 1),
        MouseButtonAction::WheelUp(1)
    );
    assert_eq!(
        button_flags_to_action(MOUSE_BUTTON_WHEEL_VERTICAL, 240, 5),
        MouseButtonAction::WheelUp(10)
    );
    // the largest negative delta: -32768 is 273 notches down, truncated
    assert_eq!(
        button_flags_to_action(MOUSE_BUTTON_WHEEL_VERTICAL, 0x8000, 3),
        MouseButtonAction::WheelDown(819)
    );
}

#[test]
fn scroll_lines_fallback() {
    assert_eq!(wheel_scroll_lines_or_default(Some(5)), 5);
    assert_eq!(wheel_scroll_lines_or_default(Some(0)), 0);
    assert_eq!(wheel_scroll_lines_or_default(None), 3);
}
