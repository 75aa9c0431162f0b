//! Periodic components: the cooperative scheduler, the soft-interrupt
//! notify bridge, and the command-line front end's data model.

pub mod cli;
pub mod event;
pub mod memory;
pub mod schedule;
