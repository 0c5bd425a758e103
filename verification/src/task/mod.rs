//! Tasks.

pub mod task;
