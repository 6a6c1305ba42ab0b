//! Shared code for the hearth nodes: the command wire format, the MQTT
//! topic and payload contract, and the LED state machine.
use vstd::prelude::*;

pub mod command;
pub mod led;
pub mod mqtt;
pub mod text;

verus! {

} // verus!
