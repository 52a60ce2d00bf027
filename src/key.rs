//! Key codes and the mapping of raw key records to key events.

use vstd::prelude::*;

use crate::event::{Key, KeyState};
use crate::raw::ProtocolError;

verus! {

pub const SPACE: u16 = 57;

pub const UP: u16 = 103;

pub const RIGHT: u16 = 106;

pub const LEFT: u16 = 105;

pub const DOWN: u16 = 108;

pub const A: u16 = 30;

/// The key event that a raw key record stands for, or the error for a value
/// that is none of up (0), down (1) and repeat (2).
pub open spec fn spec_key_event(code: u16, value: i32) -> Result<Key, ProtocolError> {
    match KeyState::spec_from_value(value) {
        Some(k) => Ok(Key { key: code, kind: k }),
        None => Err(ProtocolError::UnknownKeyValue(code, value)),
    }
}

/// Maps a raw key record to a key event.
pub fn key_event(code: u16, value: i32) -> (r: Result<Key, ProtocolError>)
    ensures
        r == spec_key_event(code, value),
        r is Ok <==> 0 <= value <= 2,
{
    match KeyState::from_value(value) {
        Some(k) => Ok(Key::new(code, k)),
        None => Err(ProtocolError::UnknownKeyValue(code, value)),
    }
}

} // verus!
