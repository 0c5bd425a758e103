//! Checks on the state of tasks.

pub mod status;
