//! Things that act on the host.

pub mod shell;
