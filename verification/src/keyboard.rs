//! Keyboard event types and decoders for raw-input records.

use vstd::prelude::*;

verus! {

/// Key-flag bit: the key was released (a "break"); clear means pressed.
pub const RI_KEY_BREAK: u16 = 0x01;
/// Key-flag bit: the scan code carries the E0 prefix.
pub const RI_KEY_E0: u16 = 0x02;
/// Key-flag bit: the scan code carries the E1 prefix.
pub const RI_KEY_E1: u16 = 0x04;

/// Legacy key-notification code for a key press.
pub const KEY_DOWN_MESSAGE: u32 = 0x0100;
/// Legacy key-notification code for a key release.
pub const KEY_UP_MESSAGE: u32 = 0x0101;
/// Legacy key-notification code for a system key press.
pub const SYS_KEY_DOWN_MESSAGE: u32 = 0x0104;
/// Legacy key-notification code for a system key release.
pub const SYS_KEY_UP_MESSAGE: u32 = 0x0105;

/// The legacy key-notification kind reported alongside a raw keyboard record.
///
/// Any code other than the four named ones is preserved in `Unknown`, so the
/// decoder is total.
#[derive(Debug, Clone, Copy, PartialEq, Eq, Structural)]
pub enum KeyEventMessage {
    /// A key was pressed.
    KeyDown,
    /// A key was released.
    KeyUp,
    /// A system key (such as an Alt combination) was pressed.
    SysKeyDown,
    /// A system key was released.
    SysKeyUp,
    /// Any other notification code, carried through unchanged.
    Unknown(u32),
}

/// The kind that the legacy notification code `message` decodes to.
pub open spec fn spec_key_event_message(message: u32) -> KeyEventMessage {
    if message == KEY_DOWN_MESSAGE {
        KeyEventMessage::KeyDown
    } else if message == KEY_UP_MESSAGE {
        KeyEventMessage::KeyUp
    } else if message == SYS_KEY_DOWN_MESSAGE {
        KeyEventMessage::SysKeyDown
    } else if message == SYS_KEY_UP_MESSAGE {
        KeyEventMessage::SysKeyUp
    } else {
        KeyEventMessage::Unknown(message)
    }
}

impl KeyEventMessage {
    /// Decodes a legacy key-notification code; total over all codes.
    pub fn from(message: u32) -> (r: KeyEventMessage)
        ensures
            r == spec_key_event_message(message),
    {
        match message {
            KEY_DOWN_MESSAGE => KeyEventMessage::KeyDown,
            KEY_UP_MESSAGE => KeyEventMessage::KeyUp,
            SYS_KEY_DOWN_MESSAGE => KeyEventMessage::SysKeyDown,
            SYS_KEY_UP_MESSAGE => KeyEventMessage::SysKeyUp,
            _ => KeyEventMessage::Unknown(message),
        }
    }
}

/// The hardware key flags of a raw keyboard record, split into their bits.
#[derive(Debug, Clone, Copy, PartialEq, Eq, Structural)]
pub struct KeyFlags {
    /// The scan code carries the E0 prefix, which distinguishes duplicate
    /// keys on modern keyboards (right versus left Ctrl, keypad versus
    /// arrow keys).
    pub e0_prefix: bool,
    /// The key was released (true) rather than pressed (false); this is the
    /// raw break flag from the keyboard controller.
    pub key_up: bool,
    /// The scan code carries the E1 prefix.
    pub e1_prefix: bool,
}

/// The flag fields that the 16-bit key-flag word `flags` decodes to.
pub open spec fn spec_key_flags(flags: u16) -> KeyFlags {
    KeyFlags {
        e0_prefix: flags & RI_KEY_E0 != 0,
        key_up: flags & RI_KEY_BREAK != 0,
        e1_prefix: flags & RI_KEY_E1 != 0,
    }
}

impl KeyFlags {
    /// Decodes a 16-bit key-flag word; total over all flag words.
    pub fn from(flags: u16) -> (r: KeyFlags)
        ensures
            r == spec_key_flags(flags),
    {
        KeyFlags {
            e0_prefix: flags & RI_KEY_E0 != 0,
            key_up: flags & RI_KEY_BREAK != 0,
            e1_prefix: flags & RI_KEY_E1 != 0,
        }
    }
}

/// Every raw key-flag word decodes to exactly one defined `KeyFlags` value:
/// the decoder is a total function of its input, each field is pinned to the
/// corresponding hardware bit, and bits outside the three defined ones have
/// no effect on the result.
pub proof fn lemma_key_flags_total(flags: u16)
    ensures
        spec_key_flags(flags) == (KeyFlags {
            e0_prefix: flags & RI_KEY_E0 != 0,
            key_up: flags & RI_KEY_BREAK != 0,
            e1_prefix: flags & RI_KEY_E1 != 0,
        }),
        spec_key_flags(flags) == spec_key_flags(flags & (RI_KEY_BREAK | RI_KEY_E0 | RI_KEY_E1)),
{
    assert(RI_KEY_BREAK | RI_KEY_E0 | RI_KEY_E1 == 0x07u16) by (bit_vector);
    assert((flags & 0x01 != 0) == ((flags & 0x07) & 0x01 != 0)) by (bit_vector);
    assert((flags & 0x02 != 0) == ((flags & 0x07) & 0x02 != 0)) by (bit_vector);
    assert((flags & 0x04 != 0) == ((flags & 0x07) & 0x04 != 0)) by (bit_vector);
}

/// Identity of a key, decoded from the platform's virtual-key code.
///
/// The catalog covers letters, digits, function keys, navigation, the
/// numeric keypad, media and browser keys, OEM punctuation and the two sides
/// of each modifier; every code outside the catalog is preserved in
/// `Unknown`, so the decoder is total.
#[derive(Debug, Clone, Copy, PartialEq, Eq, Structural)]
#[allow(missing_docs)]
pub enum VirtualKey {
    // Control and navigation keys
    Backspace, Tab, Enter, Shift, Control, Alt, Pause, CapsLock, Escape, Space, PageUp, PageDown,
    End, Home,
    // Arrow keys
    Left, Up, Right, Down,
    // Special keys
    PrintScreen, Insert, Delete,
    // Digit keys
    Key0, Key1, Key2, Key3, Key4, Key5, Key6, Key7, Key8, Key9,
    // Letter keys
    A, B, C, D, E, F, G, H, I, J, K, L,
    M, N, O, P, Q, R, S, T, U, V, W, X,
    Y, Z,
    // Platform keys
    LWin, RWin, Apps,
    // Numeric keypad
    Numpad0, Numpad1, Numpad2, Numpad3, Numpad4, Numpad5, Numpad6, Numpad7, Numpad8, Numpad9, NumpadMultiply, NumpadAdd,
    NumpadSeparator, NumpadSubtract, NumpadDecimal, NumpadDivide,
    // Function keys
    F1, F2, F3, F4, F5, F6, F7, F8, F9, F10, F11, F12,
    F13, F14, F15, F16, F17, F18, F19, F20, F21, F22, F23, F24,
    // Locks, modifier sides, browser and media keys
    NumLock, ScrollLock, LeftShift, RightShift, LeftControl, RightControl, LeftAlt, RightAlt, BrowserBack, BrowserForward, BrowserRefresh, BrowserStop,
    BrowserSearch, BrowserFavorites, BrowserHome, VolumeMute, VolumeDown, VolumeUp, MediaNextTrack, MediaPrevTrack, MediaStop, MediaPlayPause, LaunchMail, LaunchMediaSelect,
    LaunchApp1, LaunchApp2,
    // OEM punctuation keys
    OEM1, OEMPlus, OEMComma, OEMMinus, OEMPeriod, OEM2, OEM3, OEM4, OEM5, OEM6, OEM8,
    /// Any code outside the catalog, carried through unchanged.
    Unknown(u16),
}

/// The identity that the virtual-key code `vkey` decodes to.
pub open spec fn spec_virtual_key(vkey: u16) -> VirtualKey {
    if vkey == 0x08 { VirtualKey::Backspace
    } else if vkey == 0x09 { VirtualKey::Tab
    } else if vkey == 0x0D { VirtualKey::Enter
    } else if vkey == 0x10 { VirtualKey::Shift
    } else if vkey == 0x11 { VirtualKey::Control
    } else if vkey == 0x12 { VirtualKey::Alt
    } else if vkey == 0x13 { VirtualKey::Pause
    } else if vkey == 0x14 { VirtualKey::CapsLock
    } else if vkey == 0x1B { VirtualKey::Escape
    } else if vkey == 0x20 { VirtualKey::Space
    } else if vkey == 0x21 { VirtualKey::PageUp
    } else if vkey == 0x22 { VirtualKey::PageDown
    } else if vkey == 0x23 { VirtualKey::End
    } else if vkey == 0x24 { VirtualKey::Home
    } else if vkey == 0x25 { VirtualKey::Left
    } else if vkey == 0x26 { VirtualKey::Up
    } else if vkey == 0x27 { VirtualKey::Right
    } else if vkey == 0x28 { VirtualKey::Down
    } else if vkey == 0x2C { VirtualKey::PrintScreen
    } else if vkey == 0x2D { VirtualKey::Insert
    } else if vkey == 0x2E { VirtualKey::Delete
    } else if vkey == 0x30 { VirtualKey::Key0
    } else if vkey == 0x31 { VirtualKey::Key1
    } else if vkey == 0x32 { VirtualKey::Key2
    } else if vkey == 0x33 { VirtualKey::Key3
    } else if vkey == 0x34 { VirtualKey::Key4
    } else if vkey == 0x35 { VirtualKey::Key5
    } else if vkey == 0x36 { VirtualKey::Key6
    } else if vkey == 0x37 { VirtualKey::Key7
    } else if vkey == 0x38 { VirtualKey::Key8
    } else if vkey == 0x39 { VirtualKey::Key9
    } else if vkey == 0x41 { VirtualKey::A
    } else if vkey == 0x42 { VirtualKey::B
    } else if vkey == 0x43 { VirtualKey::C
    } else if vkey == 0x44 { VirtualKey::D
    } else if vkey == 0x45 { VirtualKey::E
    } else if vkey == 0x46 { VirtualKey::F
    } else if vkey == 0x47 { VirtualKey::G
    } else if vkey == 0x48 { VirtualKey::H
    } else if vkey == 0x49 { VirtualKey::I
    } else if vkey == 0x4A { VirtualKey::J
    } else if vkey == 0x4B { VirtualKey::K
    } else if vkey == 0x4C { VirtualKey::L
    } else if vkey == 0x4D { VirtualKey::M
    } else if vkey == 0x4E { VirtualKey::N
    } else if vkey == 0x4F { VirtualKey::O
    } else if vkey == 0x50 { VirtualKey::P
    } else if vkey == 0x51 { VirtualKey::Q
    } else if vkey == 0x52 { VirtualKey::R
    } else if vkey == 0x53 { VirtualKey::S
    } else if vkey == 0x54 { VirtualKey::T
    } else if vkey == 0x55 { VirtualKey::U
    } else if vkey == 0x56 { VirtualKey::V
    } else if vkey == 0x57 { VirtualKey::W
    } else if vkey == 0x58 { VirtualKey::X
    } else if vkey == 0x59 { VirtualKey::Y
    } else if vkey == 0x5A { VirtualKey::Z
    } else if vkey == 0x5B { VirtualKey::LWin
    } else if vkey == 0x5C { VirtualKey::RWin
    } else if vkey == 0x5D { VirtualKey::Apps
    } else if vkey == 0x60 { VirtualKey::Numpad0
    } else if vkey == 0x61 { VirtualKey::Numpad1
    } else if vkey == 0x62 { VirtualKey::Numpad2
    } else if vkey == 0x63 { VirtualKey::Numpad3
    } else if vkey == 0x64 { VirtualKey::Numpad4
    } else if vkey == 0x65 { VirtualKey::Numpad5
    } else if vkey == 0x66 { VirtualKey::Numpad6
    } else if vkey == 0x67 { VirtualKey::Numpad7
    } else if vkey == 0x68 { VirtualKey::Numpad8
    } else if vkey == 0x69 { VirtualKey::Numpad9
    } else if vkey == 0x6A { VirtualKey::NumpadMultiply
    } else if vkey == 0x6B { VirtualKey::NumpadAdd
    } else if vkey == 0x6C { VirtualKey::NumpadSeparator
    } else if vkey == 0x6D { VirtualKey::NumpadSubtract
    } else if vkey == 0x6E { VirtualKey::NumpadDecimal
    } else if vkey == 0x6F { VirtualKey::NumpadDivide
    } else if vkey == 0x70 { VirtualKey::F1
    } else if vkey == 0x71 { VirtualKey::F2
    } else if vkey == 0x72 { VirtualKey::F3
    } else if vkey == 0x73 { VirtualKey::F4
    } else if vkey == 0x74 { VirtualKey::F5
    } else if vkey == 0x75 { VirtualKey::F6
    } else if vkey == 0x76 { VirtualKey::F7
    } else if vkey == 0x77 { VirtualKey::F8
    } else if vkey == 0x78 { VirtualKey::F9
    } else if vkey == 0x79 { VirtualKey::F10
    } else if vkey == 0x7A { VirtualKey::F11
    } else if vkey == 0x7B { VirtualKey::F12
    } else if vkey == 0x7C { VirtualKey::F13
    } else if vkey == 0x7D { VirtualKey::F14
    } else if vkey == 0x7E { VirtualKey::F15
    } else if vkey == 0x7F { VirtualKey::F16
    } else if vkey == 0x80 { VirtualKey::F17
    } else if vkey == 0x81 { VirtualKey::F18
    } else if vkey == 0x82 { VirtualKey::F19
    } else if vkey == 0x83 { VirtualKey::F20
    } else if vkey == 0x84 { VirtualKey::F21
    } else if vkey == 0x85 { VirtualKey::F22
    } else if vkey == 0x86 { VirtualKey::F23
    } else if vkey == 0x87 { VirtualKey::F24
    } else if vkey == 0x90 { VirtualKey::NumLock
    } else if vkey == 0x91 { VirtualKey::ScrollLock
    } else if vkey == 0xA0 { VirtualKey::LeftShift
    } else if vkey == 0xA1 { VirtualKey::RightShift
    } else if vkey == 0xA2 { VirtualKey::LeftControl
    } else if vkey == 0xA3 { VirtualKey::RightControl
    } else if vkey == 0xA4 { VirtualKey::LeftAlt
    } else if vkey == 0xA5 { VirtualKey::RightAlt
    } else if vkey == 0xA6 { VirtualKey::BrowserBack
    } else if vkey == 0xA7 { VirtualKey::BrowserForward
    } else if vkey == 0xA8 { VirtualKey::BrowserRefresh
    } else if vkey == 0xA9 { VirtualKey::BrowserStop
    } else if vkey == 0xAA { VirtualKey::BrowserSearch
    } else if vkey == 0xAB { VirtualKey::BrowserFavorites
    } else if vkey == 0xAC { VirtualKey::BrowserHome
    } else if vkey == 0xAD { VirtualKey::VolumeMute
    } else if vkey == 0xAE { VirtualKey::VolumeDown
    } else if vkey == 0xAF { VirtualKey::VolumeUp
    } else if vkey == 0xB0 { VirtualKey::MediaNextTrack
    } else if vkey == 0xB1 { VirtualKey::MediaPrevTrack
    } else if vkey == 0xB2 { VirtualKey::MediaStop
    } else if vkey == 0xB3 { VirtualKey::MediaPlayPause
    } else if vkey == 0xB4 { VirtualKey::LaunchMail
    } else if vkey == 0xB5 { VirtualKey::LaunchMediaSelect
    } else if vkey == 0xB6 { VirtualKey::LaunchApp1
    } else if vkey == 0xB7 { VirtualKey::LaunchApp2
    } else if vkey == 0xBA { VirtualKey::OEM1
    } else if vkey == 0xBB { VirtualKey::OEMPlus
    } else if vkey == 0xBC { VirtualKey::OEMComma
    } else if vkey == 0xBD { VirtualKey::OEMMinus
    } else if vkey == 0xBE { VirtualKey::OEMPeriod
    } else if vkey == 0xBF { VirtualKey::OEM2
    } else if vkey == 0xC0 { VirtualKey::OEM3
    } else if vkey == 0xDB { VirtualKey::OEM4
    } else if vkey == 0xDC { VirtualKey::OEM5
    } else if vkey == 0xDD { VirtualKey::OEM6
    } else if vkey == 0xDF { VirtualKey::OEM8
    } else {
        VirtualKey::Unknown(vkey)
    }
}

impl VirtualKey {
    /// Decodes a virtual-key code against the catalog; total over all codes.
    pub fn from(vkey: u16) -> (r: VirtualKey)
        ensures
            r == spec_virtual_key(vkey),
    {
        match vkey {
                0x08 => VirtualKey::Backspace,
                0x09 => VirtualKey::Tab,
                0x0D => VirtualKey::Enter,
                0x10 => VirtualKey::Shift,
                0x11 => VirtualKey::Control,
                0x12 => VirtualKey::Alt,
                0x13 => VirtualKey::Pause,
                0x14 => VirtualKey::CapsLock,
                0x1B => VirtualKey::Escape,
                0x20 => VirtualKey::Space,
                0x21 => VirtualKey::PageUp,
                0x22 => VirtualKey::PageDown,
                0x23 => VirtualKey::End,
                0x24 => VirtualKey::Home,
                0x25 => VirtualKey::Left,
                0x26 => VirtualKey::Up,
                0x27 => VirtualKey::Right,
                0x28 => VirtualKey::Down,
                0x2C => VirtualKey::PrintScreen,
                0x2D => VirtualKey::Insert,
                0x2E => VirtualKey::Delete,
                0x30 => VirtualKey::Key0,
                0x31 => VirtualKey::Key1,
                0x32 => VirtualKey::Key2,
                0x33 => VirtualKey::Key3,
                0x34 => VirtualKey::Key4,
                0x35 => VirtualKey::Key5,
                0x36 => VirtualKey::Key6,
                0x37 => VirtualKey::Key7,
                0x38 => VirtualKey::Key8,
                0x39 => VirtualKey::Key9,
                0x41 => VirtualKey::A,
                0x42 => VirtualKey::B,
                0x43 => VirtualKey::C,
                0x44 => VirtualKey::D,
                0x45 => VirtualKey::E,
                0x46 => VirtualKey::F,
                0x47 => VirtualKey::G,
                0x48 => VirtualKey::H,
                0x49 => VirtualKey::I,
                0x4A => VirtualKey::J,
                0x4B => VirtualKey::K,
                0x4C => VirtualKey::L,
                0x4D => VirtualKey::M,
                0x4E => VirtualKey::N,
                0x4F => VirtualKey::O,
                0x50 => VirtualKey::P,
                0x51 => VirtualKey::Q,
                0x52 => VirtualKey::R,
                0x53 => VirtualKey::S,
                0x54 => VirtualKey::T,
                0x55 => VirtualKey::U,
                0x56 => VirtualKey::V,
                0x57 => VirtualKey::W,
                0x58 => VirtualKey::X,
                0x59 => VirtualKey::Y,
                0x5A => VirtualKey::Z,
                0x5B => VirtualKey::LWin,
                0x5C => VirtualKey::RWin,
                0x5D => VirtualKey::Apps,
                0x60 => VirtualKey::Numpad0,
                0x61 => VirtualKey::Numpad1,
                0x62 => VirtualKey::Numpad2,
                0x63 => VirtualKey::Numpad3,
                0x64 => VirtualKey::Numpad4,
                0x65 => VirtualKey::Numpad5,
                0x66 => VirtualKey::Numpad6,
                0x67 => VirtualKey::Numpad7,
                0x68 => VirtualKey::Numpad8,
                0x69 => VirtualKey::Numpad9,
                0x6A => VirtualKey::NumpadMultiply,
                0x6B => VirtualKey::NumpadAdd,
                0x6C => VirtualKey::NumpadSeparator,
                0x6D => VirtualKey::NumpadSubtract,
                0x6E => VirtualKey::NumpadDecimal,
                0x6F => VirtualKey::NumpadDivide,
                0x70 => VirtualKey::F1,
                0x71 => VirtualKey::F2,
                0x72 => VirtualKey::F3,
                0x73 => VirtualKey::F4,
                0x74 => VirtualKey::F5,
                0x75 => VirtualKey::F6,
                0x76 => VirtualKey::F7,
                0x77 => VirtualKey::F8,
                0x78 => VirtualKey::F9,
                0x79 => VirtualKey::F10,
                0x7A => VirtualKey::F11,
                0x7B => VirtualKey::F12,
                0x7C => VirtualKey::F13,
                0x7D => VirtualKey::F14,
                0x7E => VirtualKey::F15,
                0x7F => VirtualKey::F16,
                0x80 => VirtualKey::F17,
                0x81 => VirtualKey::F18,
                0x82 => VirtualKey::F19,
                0x83 => VirtualKey::F20,
                0x84 => VirtualKey::F21,
                0x85 => VirtualKey::F22,
                0x86 => VirtualKey::F23,
                0x87 => VirtualKey::F24,
                0x90 => VirtualKey::NumLock,
                0x91 => VirtualKey::ScrollLock,
                0xA0 => VirtualKey::LeftShift,
                0xA1 => VirtualKey::RightShift,
                0xA2 => VirtualKey::LeftControl,
                0xA3 => VirtualKey::RightControl,
                0xA4 => VirtualKey::LeftAlt,
                0xA5 => VirtualKey::RightAlt,
                0xA6 => VirtualKey::BrowserBack,
                0xA7 => VirtualKey::BrowserForward,
                0xA8 => VirtualKey::BrowserRefresh,
                0xA9 => VirtualKey::BrowserStop,
                0xAA => VirtualKey::BrowserSearch,
                0xAB => VirtualKey::BrowserFavorites,
                0xAC => VirtualKey::BrowserHome,
                0xAD => VirtualKey::VolumeMute,
                0xAE => VirtualKey::VolumeDown,
                0xAF => VirtualKey::VolumeUp,
                0xB0 => VirtualKey::MediaNextTrack,
                0xB1 => VirtualKey::MediaPrevTrack,
                0xB2 => VirtualKey::MediaStop,
                0xB3 => VirtualKey::MediaPlayPause,
                0xB4 => VirtualKey::LaunchMail,
                0xB5 => VirtualKey::LaunchMediaSelect,
                0xB6 => VirtualKey::LaunchApp1,
                0xB7 => VirtualKey::LaunchApp2,
                0xBA => VirtualKey::OEM1,
                0xBB => VirtualKey::OEMPlus,
                0xBC => VirtualKey::OEMComma,
                0xBD => VirtualKey::OEMMinus,
                0xBE => VirtualKey::OEMPeriod,
                0xBF => VirtualKey::OEM2,
                0xC0 => VirtualKey::OEM3,
                0xDB => VirtualKey::OEM4,
                0xDC => VirtualKey::OEM5,
                0xDD => VirtualKey::OEM6,
                0xDF => VirtualKey::OEM8,
                _ => VirtualKey::Unknown(vkey),
        }
    }
}

/// The plain fields of a raw keyboard record, as the platform reports them.
///
/// This is the decoded form of the fixed keyboard sub-structure of a raw
/// record: every field is a plain integer straight from the hardware report,
/// before any bit decoding.
#[derive(Debug, Clone, Copy, PartialEq, Eq, Structural)]
pub struct KeyboardRecord {
    /// Hardware scan code of the key.
    pub make_code: u16,
    /// Raw key-flag word (break flag and E0/E1 prefixes).
    pub flags: u16,
    /// Platform virtual-key code.
    pub vkey: u16,
    /// Legacy key-notification code for this key event.
    pub message: u32,
    /// Additional driver or hardware information.
    pub extra_information: u32,
}

/// Data for a keyboard event, decoded from a raw keyboard record.
///
/// `key_up` comes from the raw break flag; `extended` is set when the scan
/// code carries either the E0 or the E1 prefix; `message` and `vkey` are the
/// decoded forms of the record's notification code and virtual-key code.
#[derive(Debug, Clone, Copy, PartialEq, Eq, Structural)]
pub struct RawKeyboardEvent {
    /// Hardware scan code of the key.
    pub make_code: u16,
    /// The key was released (true) rather than pressed (false), from the raw
    /// break flag.
    pub key_up: bool,
    /// The scan code carries the E0 or the E1 prefix.
    pub extended: bool,
    /// The decoded legacy key-notification kind.
    pub message: KeyEventMessage,
    /// The decoded key identity.
    pub vkey: VirtualKey,
    /// Additional driver or hardware information.
    pub extra_information: u32,
}

/// The keyboard event that the record `r` decodes to.
pub open spec fn spec_keyboard_event(r: KeyboardRecord) -> RawKeyboardEvent {
    RawKeyboardEvent {
        make_code: r.make_code,
        key_up: spec_key_flags(r.flags).key_up,
        extended: spec_key_flags(r.flags).e0_prefix || spec_key_flags(r.flags).e1_prefix,
        message: spec_key_event_message(r.message),
        vkey: spec_virtual_key(r.vkey),
        extra_information: r.extra_information,
    }
}

impl RawKeyboardEvent {
    /// Decodes a raw keyboard record into an event; total over all records.
    pub fn from(kbd: &KeyboardRecord) -> (r: RawKeyboardEvent)
        ensures
            r == spec_keyboard_event(*kbd),
    {
        let flags = KeyFlags::from(kbd.flags);
        RawKeyboardEvent {
            make_code: kbd.make_code,
            key_up: flags.key_up,
            extended: flags.e0_prefix || flags.e1_prefix,
            message: KeyEventMessage::from(kbd.message),
            vkey: VirtualKey::from(kbd.vkey),
            extra_information: kbd.extra_information,
        }
    }
}

} // verus!
