//! What is known of the host: its system, processor, memory, disks,
//! network interfaces, processes and services.

pub mod cpu;
pub mod disk;
pub mod hostinfo;
pub mod hostname;
pub mod memory;
pub mod network;
pub mod os;
pub mod process;
pub mod service;
