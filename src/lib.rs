//! Decoder for the fixed 10-byte input report of a DualShock 4 style
//! controller: buttons, two analog sticks and two analog triggers, readable
//! only once the frame's header and checksum have been checked.
use vstd::prelude::*;

pub mod laws;
mod layout;
mod packet;

pub use layout::{Button, StickAxis, Trigger, HEADER, LENGTH};
pub use packet::{
    bit_is_set, button_pressed, byte_sum, checksum_of, is_valid_frame, signed, Packet, Sticks,
    Triggers, ValidationError,
};

verus! {

} // verus!
