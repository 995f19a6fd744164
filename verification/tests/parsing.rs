//! Tests for record parsing and the error type.

use mkb_raw_input::record::{DEVICE_TYPE_KEYBOARD, DEVICE_TYPE_MOUSE};
use mkb_raw_input::{
    KeyEventMessage, MouseButtonAction, MouseMoveMode, RawInputError, RawInputEvent, RawRecord,
    VirtualKey, parse_rawinput_event,
};

fn keyboard_payload(make_code: u16, flags: u16, vkey: u16, message: u32, extra: u32) -> Vec<u8> {
    let mut p: Vec<u8> = Vec::new();
    p.extend_from_slice(&make_code.to_le_bytes());
    p.extend_from_slice(&flags.to_le_bytes());
    p.extend_from_slice(&0u16.to_le_bytes()); // reserved word
    p.extend_from_slice(&vkey.to_le_bytes());
    p.extend_from_slice(&message.to_le_bytes());
    p.extend_from_slice(&extra.to_le_bytes());
    p
}

fn mouse_payload(
    flags: u16,
    button_flags: u16,
    button_data: u16,
    raw_buttons: u32,
    last_x: i32,
    last_y: i32,
    extra: u32,
) -> Vec<u8> {
    let mut p: Vec<u8> = Vec::new();
    p.extend_from_slice(&flags.to_le_bytes());
    p.extend_from_slice(&0u16.to_le_bytes()); // reserved word
    p.extend_from_slice(&button_flags.to_le_bytes());
    p.extend_from_slice(&button_data.to_le_bytes());
    p.extend_from_slice(&raw_buttons.to_le_bytes());
    p.extend_from_slice(&last_x.to_le_bytes());
    p.extend_from_slice(&last_y.to_le_bytes());
    p.extend_from_slice(&extra.to_le_bytes());
    p
}

#[test]
fn test_error_conversion_winapi() {
    // a diagnostic text as the platform boundary would surface it
    let win_error = "The operation completed successfully. (0x00000000)";
    let raw_error = RawInputError::WinApiError(format!("{win_error}"));

    let error_msg = raw_error.message();
    assert!(
        error_msg.contains("Windows API error"),
        "Error message should contain 'Windows API error', got: {error_msg}"
    );
}

#[test]
fn test_error_conversion_other() {
    let message = "Test error message";
    let raw_error = RawInputError::Other(message.to_string());

    let error_msg = raw_error.message();
    assert!(
        error_msg.contains(message),
        "Error message should contain the custom message, got: {error_msg}"
    );
}

#[test]
fn error_message_exact_prefixes() {
    assert_eq!(
        RawInputError::WinApiError("boom".to_string()).message(),
        "Windows API error: boom"
    );
    assert_eq!(RawInputError::Other("boom".to_string()).message(), "Other error: boom");
}

#[test]
fn test_parse_rawinput_event_keyboard() {
    let record = RawRecord {
        device_type: DEVICE_TYPE_KEYBOARD,
        payload: keyboard_payload(30, 0, 65, 256, 123),
    };

    let event = parse_rawinput_event(&record, 3);

    assert!(event.is_some(), "Should parse keyboard event");
    match event {
        Some(RawInputEvent::Keyboard(kbd)) => {
            assert_eq!(kbd.make_code, 30);
            assert_eq!(kbd.key_up, false);
            assert_eq!(kbd.extended, false);
            assert_eq!(kbd.vkey, VirtualKey::A);
            assert_eq!(kbd.message, KeyEventMessage::KeyDown);
            assert_eq!(kbd.extra_information, 123);
        }
        _ => panic!("Expected keyboard event"),
    }
}

#[test]
fn test_parse_rawinput_event_mouse() {
    let record = RawRecord {
        device_type: DEVICE_TYPE_MOUSE,
        payload: mouse_payload(0x01, 0x0400, 120, 0, 100, 200, 456),
    };

    let event = parse_rawinput_event(&record, 3);

    assert!(event.is_some(), "Should parse mouse event");
    match event {
        Some(RawInputEvent::Mouse(mouse)) => {
            assert_eq!(mouse.move_mode, MouseMoveMode::Absolute);
            if let MouseButtonAction::WheelUp(lines_scrolled) = mouse.button_action {
                assert_eq!(lines_scrolled, 3);
            } else {
                panic!("Expected WheelUp mouse action");
            }
            assert_eq!(mouse.raw_buttons, 0);
            assert_eq!(mouse.last_x, 100);
            assert_eq!(mouse.last_y, 200);
            assert_eq!(mouse.extra_information, 456);
        }
        _ => panic!("Expected mouse event"),
    }
}

#[test]
fn test_parse_rawinput_event_unsupported() {
    let record = RawRecord { device_type: 3, payload: keyboard_payload(30, 0, 65, 256, 123) };

    let event = parse_rawinput_event(&record, 3);

    assert!(event.is_none(), "Should return None for unsupported input types");
}

#[test]
fn parse_skips_short_payloads() {
    // a keyboard record with a truncated payload is skipped, never decoded in part
    let record = RawRecord { device_type: DEVICE_TYPE_KEYBOARD, payload: vec![1, 2, 3] };
    assert!(parse_rawinput_event(&record, 3).is_none());

    // the mouse sub-structure is larger than the keyboard one
    let record = RawRecord {
        device_type: DEVICE_TYPE_MOUSE,
        payload: keyboard_payload(30, 0, 65, 256, 123),
    };
    assert!(parse_rawinput_event(&record, 3).is_none());

    let record = RawRecord { device_type: DEVICE_TYPE_MOUSE, payload: Vec::new() };
    assert!(parse_rawinput_event(&record, 3).is_none());
}

#[test]
fn parse_reads_fields_little_endian() {
    let record = RawRecord {
        device_type: DEVICE_TYPE_KEYBOARD,
        payload: keyboard_payload(0x012A, 0, 0x0041, 0x0100, 0xA1B2C3D4),
    };
    match parse_rawinput_event(&record, 3) {
        Some(RawInputEvent::Keyboard(kbd)) => {
            assert_eq!(kbd.make_code, 0x012A);
            assert_eq!(kbd.vkey, VirtualKey::A);
            assert_eq!(kbd.message, KeyEventMessage::KeyDown);
            assert_eq!(kbd.extra_information, 0xA1B2C3D4);
        }
        _ => panic!("Expected keyboard event"),
    }
}

#[test]
fn parse_mouse_signed_coordinates() {
    let record = RawRecord {
        device_type: DEVICE_TYPE_MOUSE,
        payload: mouse_payload(0, 0, 0, 0, -20, i32::MIN, 0),
    };
    match parse_rawinput_event(&record, 3) {
        Some(RawInputEvent::Mouse(mouse)) => {
            assert_eq!(mouse.move_mode, MouseMoveMode::Relative);
            assert_eq!(mouse.button_action, MouseButtonAction::NoAction);
            assert_eq!(mouse.last_x, -20);
            assert_eq!(mouse.last_y, i32::MIN);
        }
        _ => panic!("Expected mouse event"),
    }
}
