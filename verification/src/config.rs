//! Persistent configuration records: aircraft geometry, battery limits,
//! sensor calibration, on-screen display, and the output table, together
//! with the path-addressed update mechanism the console uses.

pub mod aircraft;
pub mod battery;
pub mod imu;
pub mod osd;
pub mod output;
pub mod setter;
