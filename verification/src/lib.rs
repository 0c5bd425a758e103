//! Host diagnostics and a hierarchical self-test runner, verified with Verus.
//!
//! The crate computes on plain values: the text a platform command printed,
//! a snapshot of a directory tree, the outcome of a process that somebody
//! else ran. Gathering those values is left to the caller.

pub mod actors;
pub mod common;
pub mod config;
pub mod host;
pub mod info;
pub mod local;
pub mod monitor;
pub mod network;
pub mod security;
pub mod seqs;
pub mod task;
pub mod tests;
pub mod text;
