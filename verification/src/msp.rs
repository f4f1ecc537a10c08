//! The wire form of a throttle command: a raw RC frame of the MSP protocol.

use vstd::prelude::*;
use cu_msp_lib::structs::MspRc;
use crate::messages::Command;

verus! {

/// A raw RC frame of `cu_msp_lib`. Its channels are read through
/// [`rc_channels`].
#[verifier::external_type_specification]
#[verifier::external_body]
pub struct ExMspRc(cu_msp_lib::structs::MspRc);

/// The channel that carries the throttle.
pub const THROTTLE_CHANNEL: usize = 2;

/// The number of channels in a frame.
pub const CHANNELS: usize = 16;

/// The channel values of a frame, in channel order.
pub uninterp spec fn rc_channels(rc: MspRc) -> Seq<u16>;

/// `MspRc::new` returns a frame of sixteen channels, all at zero.
pub assume_specification[ MspRc::new ]() -> (rc: MspRc)
    ensures
        rc_channels(rc) == Seq::new(16, |i: int| 0u16),
;

/// `MspRc::set_throttle` writes the value into channel 2 and leaves the other
/// channels as they are.
pub assume_specification[ MspRc::set_throttle ](rc: &mut MspRc, value: u16)
    ensures
        rc_channels(*final(rc)) == rc_channels(*old(rc)).update(2, value),
;

/// The channels of the frame for a throttle command: the throttle in its
/// channel, and every other channel at zero.
pub open spec fn throttle_channels(value: u16) -> Seq<u16> {
    Seq::new(
        CHANNELS as nat,
        |i: int|
            if i == THROTTLE_CHANNEL {
                value
            } else {
                0u16
            },
    )
}

/// Builds the frame that sets the throttle to `value`.
pub fn throttle_frame(value: u16) -> (rc: MspRc)
    ensures
        rc_channels(rc) == throttle_channels(value),
{
    let mut rc = MspRc::new();
    rc.set_throttle(value);
    assert(rc_channels(rc) =~= throttle_channels(value));
    rc
}

/// The frame that a command carries: a throttle command carries the frame of
/// its value, a battery poll carries nothing.
pub fn frame_for(command: Command) -> (r: Option<MspRc>)
    ensures
        r is Some <==> command is SetThrottle,
        r is Some ==> rc_channels(r->0) == throttle_channels(command->SetThrottle_0),
{
    match command {
        Command::SetThrottle(value) => Some(throttle_frame(value)),
        Command::PollBatteryState => None,
    }
}

} // verus!
