//! System services: the tick clock.

pub mod jiffies;
