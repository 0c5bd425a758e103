//! Passwords, encryption and signatures.

pub mod authentication;
pub mod encryption;
