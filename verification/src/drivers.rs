//! Device-facing logic: the radio-control receiver, the GNSS message
//! decoder, and the serial terminal's line discipline.

pub mod nav_pos_pvt;
pub mod sbus;
pub mod terminal;
