//! The host as the commands of its own platform describe it: Windows,
//! Linux or macOS, told apart by the name of the build target.

pub mod cpu;
pub mod disk;
pub mod memory;
pub mod network;
pub mod os;
pub mod process;
