//! Types and helpers shared by the whole crate.

pub mod api;
pub mod config;
pub mod ds;
pub mod paint;
pub mod parse;
pub mod stamp;
