//! Device-type-tagged binary records and their byte-level decoding.
//!
//! A raw record arrives from the platform boundary as a device-type
//! discriminant plus the bytes of the device's fixed sub-structure. The
//! readers here interpret those bytes at documented offsets, little-endian,
//! without assuming anything about alignment.

use crate::keyboard::KeyboardRecord;
use crate::mouse::MouseRecord;
use vstd::prelude::*;

verus! {

/// Device-type discriminant of a mouse record.
pub const DEVICE_TYPE_MOUSE: u32 = 0;
/// Device-type discriminant of a keyboard record.
pub const DEVICE_TYPE_KEYBOARD: u32 = 1;

/// Size of the fixed keyboard sub-structure: scan code, key flags, a
/// reserved word, the virtual-key code, the notification code and the extra
/// information, each little-endian.
pub const KEYBOARD_PAYLOAD_BYTES: usize = 16;

/// Size of the fixed mouse sub-structure: the move-mode flags, a reserved
/// word, the button flags, the button data, the raw button state, the two
/// signed coordinates and the extra information, each little-endian.
pub const MOUSE_PAYLOAD_BYTES: usize = 24;

/// An opaque binary record from the raw-input channel: a device-type
/// discriminant and the bytes of the device's fixed sub-structure.
#[derive(Debug, Clone, PartialEq, Eq)]
pub struct RawRecord {
    /// The device-type discriminant from the record header.
    pub device_type: u32,
    /// The bytes of the device-specific sub-structure.
    pub payload: Vec<u8>,
}

/// The unsigned 16-bit value that bytes `i` and `i + 1` of `b` hold,
/// little-endian.
pub open spec fn spec_u16_le(b: Seq<u8>, i: int) -> u16
    recommends
        0 <= i,
        i + 2 <= b.len(),
{
    (b[i] + b[i + 1] * 0x100) as u16
}

/// The unsigned 32-bit value that bytes `i` through `i + 3` of `b` hold,
/// little-endian.
pub open spec fn spec_u32_le(b: Seq<u8>, i: int) -> u32
    recommends
        0 <= i,
        i + 4 <= b.len(),
{
    (b[i] + b[i + 1] * 0x100 + b[i + 2] * 0x10000 + b[i + 3] * 0x1000000) as u32
}

/// The signed 32-bit value that bytes `i` through `i + 3` of `b` hold,
/// little-endian two's complement.
pub open spec fn spec_i32_le(b: Seq<u8>, i: int) -> i32
    recommends
        0 <= i,
        i + 4 <= b.len(),
{
    let n = spec_u32_le(b, i);
    if n < 0x8000_0000 {
        n as i32
    } else {
        (n - 0x1_0000_0000) as i32
    }
}

/// Reads an unsigned 16-bit little-endian value at offset `i`.
fn read_u16_le(b: &Vec<u8>, i: usize) -> (r: u16)
    requires
        i + 2 <= b.len(),
    ensures
        r == spec_u16_le(b@, i as int),
{
    (b[i] as u16) + (b[i + 1] as u16) * 0x100
}

/// Reads an unsigned 32-bit little-endian value at offset `i`.
fn read_u32_le(b: &Vec<u8>, i: usize) -> (r: u32)
    requires
        i + 4 <= b.len(),
    ensures
        r == spec_u32_le(b@, i as int),
{
    (b[i] as u32) + (b[i + 1] as u32) * 0x100 + (b[i + 2] as u32) * 0x10000 + (b[i + 3] as u32)
        * 0x1000000
}

/// Reads a signed 32-bit little-endian two's-complement value at offset `i`.
fn read_i32_le(b: &Vec<u8>, i: usize) -> (r: i32)
    requires
        i + 4 <= b.len(),
    ensures
        r == spec_i32_le(b@, i as int),
{
    let n = read_u32_le(b, i);
    if n < 0x8000_0000 {
        n as i32
    } else if n == 0x8000_0000 {
        i32::MIN
    } else {
        let mag: u32 = (0xFFFF_FFFF - n) + 1;
        -(mag as i32)
    }
}

/// The keyboard record that the payload bytes `b` hold at the documented
/// offsets (bytes 4 and 5 are the reserved word and are ignored).
pub open spec fn spec_keyboard_record_of_bytes(b: Seq<u8>) -> KeyboardRecord
    recommends
        b.len() >= KEYBOARD_PAYLOAD_BYTES,
{
    KeyboardRecord {
        make_code: spec_u16_le(b, 0),
        flags: spec_u16_le(b, 2),
        vkey: spec_u16_le(b, 6),
        message: spec_u32_le(b, 8),
        extra_information: spec_u32_le(b, 12),
    }
}

/// Decodes the fixed keyboard sub-structure from its payload bytes.
pub fn keyboard_record_of_bytes(b: &Vec<u8>) -> (r: KeyboardRecord)
    requires
        b.len() >= KEYBOARD_PAYLOAD_BYTES,
    ensures
        r == spec_keyboard_record_of_bytes(b@),
{
    KeyboardRecord {
        make_code: read_u16_le(b, 0),
        flags: read_u16_le(b, 2),
        vkey: read_u16_le(b, 6),
        message: read_u32_le(b, 8),
        extra_information: read_u32_le(b, 12),
    }
}

/// The mouse record that the payload bytes `b` hold at the documented
/// offsets (bytes 2 and 3 are the reserved word and are ignored).
pub open spec fn spec_mouse_record_of_bytes(b: Seq<u8>) -> MouseRecord
    recommends
        b.len() >= MOUSE_PAYLOAD_BYTES,
{
    MouseRecord {
        flags: spec_u16_le(b, 0),
        button_flags: spec_u16_le(b, 4),
        button_data: spec_u16_le(b, 6),
        raw_buttons: spec_u32_le(b, 8),
        last_x: spec_i32_le(b, 12),
        last_y: spec_i32_le(b, 16),
        extra_information: spec_u32_le(b, 20),
    }
}

/// Decodes the fixed mouse sub-structure from its payload bytes.
pub fn mouse_record_of_bytes(b: &Vec<u8>) -> (r: MouseRecord)
    requires
        b.len() >= MOUSE_PAYLOAD_BYTES,
    ensures
        r == spec_mouse_record_of_bytes(b@),
{
    MouseRecord {
        flags: read_u16_le(b, 0),
        button_flags: read_u16_le(b, 4),
        button_data: read_u16_le(b, 6),
        raw_buttons: read_u32_le(b, 8),
        last_x: read_i32_le(b, 12),
        last_y: read_i32_le(b, 16),
        extra_information: read_u32_le(b, 20),
    }
}

} // verus!
