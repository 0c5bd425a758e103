//! The settings of a node.

use vstd::prelude::*;

verus! {

/// The settings of a node.
#[derive(Debug, Clone)]
pub struct Config {
    pub env: EnvConfig,
    pub general: GeneralConfig,
    pub security: SecurityConfig,
    pub database: DatabaseConfig,
}

/// What is set in the environment of the process.
#[derive(Debug, Clone)]
pub struct EnvConfig {
    pub rust_log: String,
    pub rust_backtrace: u32,
}

/// What the node is and where it serves.
#[derive(Debug, Clone)]
pub struct GeneralConfig {
    pub app_name: String,
    pub app_environment: String,
    pub app_node_id: String,
    pub app_port: u16,
    pub peers_file: String,
}

/// How the node protects what it sends and whom it lets in.
#[derive(Debug, Clone)]
pub struct SecurityConfig {
    pub algorithm: String,
    pub key: String,
    pub auth_password: String,
    pub username: String,
    pub password: String,
}

/// Where the node keeps its data.
#[derive(Debug, Clone)]
pub struct DatabaseConfig {
    pub url: String,
}

impl Config {
    /// Where the list of peers is kept.
    pub fn peers_file(&self) -> (r: &str)
        ensures
            r@ == self.general.peers_file@,
    {
        self.general.peers_file.as_str()
    }
}

} // verus!
