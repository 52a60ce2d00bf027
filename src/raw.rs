//! Raw records of the kernel's input-event stream.

use vstd::prelude::*;

verus! {

/// Record kind: end of one consistent snapshot (a sync marker).
pub const EV_SYN: u16 = 0x00;

/// Record kind: a key or button changed.
pub const EV_KEY: u16 = 0x01;

/// Record kind: an absolute axis changed.
pub const EV_ABS: u16 = 0x03;

/// Axis code: single-touch x position.
pub const ABS_X: u16 = 0x00;

/// Axis code: single-touch y position.
pub const ABS_Y: u16 = 0x01;

/// Axis code: selects the multi-touch slot that later updates apply to.
pub const ABS_MT_SLOT: u16 = 0x2f;

/// Axis code: x position of the contact in the selected slot.
pub const ABS_MT_POSITION_X: u16 = 0x35;

/// Axis code: y position of the contact in the selected slot.
pub const ABS_MT_POSITION_Y: u16 = 0x36;

/// Axis code: tracking id of the contact in the selected slot; negative when it lifts.
pub const ABS_MT_TRACKING_ID: u16 = 0x39;

/// Key code of the single-touch protocol's contact button.
pub const BTN_TOUCH: u16 = 0x14a;

/// One primitive record of an input device: its kind, code and value.
#[derive(Clone, Copy, Debug, PartialEq, Eq, Structural)]
pub struct RawEvent {
    pub kind: u16,
    pub code: u16,
    pub value: i32,
}

impl RawEvent {
    /// Creates a record.
    pub fn new(kind: u16, code: u16, value: i32) -> (r: RawEvent)
        ensures
            r == (RawEvent { kind, code, value }),
    {
        RawEvent { kind, code, value }
    }
}

/// A record that breaks the input protocol; it is dropped and changes nothing.
#[derive(Clone, Copy, Debug, PartialEq, Eq, Structural)]
pub enum ProtocolError {
    /// A multi-touch slot selection outside the tracked slots, with the value given.
    SlotOutOfRange(i32),
    /// A key record whose value is none of up, down and repeat: the key code and the value.
    UnknownKeyValue(u16, i32),
}

/// Number of bytes after the time stamp of a record: kind, code and value.
pub const RECORD_BODY_LEN: usize = 8;

/// The integer that two bytes hold, least significant first.
pub open spec fn le_u16(b0: u8, b1: u8) -> int {
    b0 + 256 * b1
}

/// The signed integer that four bytes hold in two's complement, least significant first.
pub open spec fn le_i32(b0: u8, b1: u8, b2: u8, b3: u8) -> int {
    let u = b0 + 256 * b1 + 65536 * b2 + 16777216 * b3;
    if u >= 0x8000_0000 {
        u - 0x1_0000_0000
    } else {
        u
    }
}

/// The record that `bytes` hold after a time stamp of `time_len` bytes: kind and code
/// as 16-bit and value as 32-bit little-endian integers; `None` unless `bytes` is
/// exactly one record long.
pub open spec fn spec_decode(bytes: Seq<u8>, time_len: int) -> Option<RawEvent> {
    if bytes.len() != time_len + RECORD_BODY_LEN {
        None
    } else {
        let t = time_len;
        Some(
            RawEvent {
                kind: le_u16(bytes[t], bytes[t + 1]) as u16,
                code: le_u16(bytes[t + 2], bytes[t + 3]) as u16,
                value: le_i32(bytes[t + 4], bytes[t + 5], bytes[t + 6], bytes[t + 7]) as i32,
            },
        )
    }
}

/// Decodes one record whose time stamp takes `time_len` bytes.
pub fn decode_at(bytes: &[u8], time_len: usize) -> (r: Option<RawEvent>)
    ensures
        r == spec_decode(bytes@, time_len as int),
{
    let n = bytes.len();
    if n < RECORD_BODY_LEN || n - RECORD_BODY_LEN != time_len {
        return None;
    }
    let t = time_len;
    let kind: u16 = bytes[t] as u16 + 256 * (bytes[t + 1] as u16);
    let code: u16 = bytes[t + 2] as u16 + 256 * (bytes[t + 3] as u16);
    let u: u32 = bytes[t + 4] as u32 + 256 * (bytes[t + 5] as u32) + 65536 * (bytes[t + 6] as u32)
        + 16777216 * (bytes[t + 7] as u32);
    let value: i32 = if u >= 0x8000_0000 {
        (u as i64 - 0x1_0000_0000i64) as i32
    } else {
        u as i32
    };
    Some(RawEvent { kind, code, value })
}

/// Relies on libc::timeval, the time stamp that opens each kernel input record:
/// a C struct of two integer fields of at most eight bytes each.
#[verifier::external_body]
fn timeval_len() -> (r: usize)
    ensures
        r <= 16,
{
    core::mem::size_of::<libc::timeval>()
}

/// Length in bytes of one kernel input record on this machine.
pub fn record_len() -> (r: usize)
    ensures
        RECORD_BODY_LEN <= r <= 16 + RECORD_BODY_LEN,
{
    timeval_len() + RECORD_BODY_LEN
}

/// Decodes one kernel input record as this machine lays it out; `None` unless `bytes`
/// is exactly one record long.
pub fn decode_record(bytes: &[u8]) -> (r: Option<RawEvent>)
    ensures
        exists|t: int| 0 <= t <= 16 && r == spec_decode(bytes@, t),
{
    let t = timeval_len();
    decode_at(bytes, t)
}

} // verus!
