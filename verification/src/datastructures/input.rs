//! Pilot control input as decoded from the radio receiver, and the
//! configuration that maps receiver channels onto the logical inputs.

use vstd::prelude::*;

verus! {

/// Link quality in percent, published by the receiver driver.
pub type RSSI = u16;

/// One frame of pilot input, each axis scaled to the full `i16` range.
#[derive(Copy, Clone, Debug, PartialEq, Eq, Structural)]
pub struct ControlInput {
    pub throttle: i16,
    pub roll: i16,
    pub pitch: i16,
    pub yaw: i16,
}

impl Default for ControlInput {
    fn default() -> (r: Self)
        ensures
            r == (ControlInput { throttle: 0, roll: 0, pitch: 0, yaw: 0 }),
    {
        Self { throttle: 0, roll: 0, pitch: 0, yaw: 0 }
    }
}

/// The logical axis a receiver channel feeds.
#[derive(Copy, Clone, Debug, PartialEq, Eq, Structural)]
pub enum InputType {
    Throttle,
    Roll,
    Pitch,
    Yaw,
}

/// One entry of the receiver configuration: which channel feeds which
/// axis, and the scale applied to it, in percent.
#[derive(Copy, Clone, Debug, PartialEq, Eq, Structural)]
pub struct InputConfig {
    pub input_type: InputType,
    pub channel: u8,
    pub scale: u8,
}

} // verus!
