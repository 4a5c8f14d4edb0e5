//! Decoding of the vendor-specific events that BlueNRG controllers send over the Bluetooth HCI.
//!
//! Each decoder is a pure function from the event's payload bytes to a typed event or to a
//! structured error, and its contract states the result over a byte-level model of the wire
//! format.
use vstd::prelude::*;

pub mod event;
pub mod le;
pub mod laws;
pub mod text;

verus! {

} // verus!
