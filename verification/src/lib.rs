//! Core of a cooperative flight-control firmware: single-writer data channels
//! that hand sensor data from interrupt-style producers to periodic tasks, a
//! rate-based task scheduler driven by one hardware tick, and the small data
//! types (configuration records, measurements, receiver frames) that flow
//! through them.

pub mod chips;
pub mod components;
pub mod config;
pub mod datastructures;
pub mod drivers;
pub mod sys;
pub mod text;
