//! Command ids as written in byte 0 of a command, kept in one place and
//! shared by decoding and encoding.
use vstd::prelude::*;

verus! {

/// Turn the LED off (no payload).
pub const LED_OFF: u8 = 0x00;

/// Turn the LED on with its last color (no payload).
pub const LED_ON: u8 = 0x01;

/// Set the color (payload: three bytes R, G, B).
pub const SET_COLOR: u8 = 0x02;

/// Set the brightness (payload: one byte, 0..=255).
pub const SET_BRIGHTNESS: u8 = 0x03;

} // verus!
