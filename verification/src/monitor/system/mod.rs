//! Checks on the state of the system.

pub mod disk_usage;
pub mod open_port;
