//! Switchable output channels, and the relays that carry them.
use vstd::prelude::*;

verus! {

use std::sync::Arc;

/// One switchable channel of an actuator.
pub trait ActuatorChannel: Sized {
    fn name(&self) -> &str;

    fn open(&self);

    fn close(&self);

    fn is_open(&self) -> bool;
}

/// A device offering a fixed set of switchable channels.
pub trait Actuator: Sized {
    type Channel: ActuatorChannel;

    fn channels(&self) -> &[Arc<Self::Channel>];
}

/// The coil layout of the sixteen-channel relay board: it takes the
/// channel flags most significant byte first, so the second eight
/// channels are written before the first eight.
pub fn coil_frame(flags: &[bool; 16]) -> (r: [bool; 16])
    ensures
        r@ =~= flags@.subrange(8, 16) + flags@.subrange(0, 8),
{
    [
        flags[8],
        flags[9],
        flags[10],
        flags[11],
        flags[12],
        flags[13],
        flags[14],
        flags[15],
        flags[0],
        flags[1],
        flags[2],
        flags[3],
        flags[4],
        flags[5],
        flags[6],
        flags[7],
    ]
}

} // verus!
