//! Watching the host and recording what is seen as events.

pub mod desktop_inform;
pub mod event;
pub mod monitor;
pub mod system;
pub mod task;
