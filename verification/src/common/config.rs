//! The settings of an instance and of its monitor.

use crate::common::ds::TaskStatus;
use vstd::prelude::*;

verus! {

/// The settings of an instance.
#[derive(Debug, Clone)]
pub struct GlobalConfig {
    pub env: EnvConfig,
    pub app: AppConfig,
    pub security: SecurityConfig,
    pub database_url: String,
    pub peers_file: String,
    pub monitor_config: String,
}

/// What is set in the environment of the process.
#[derive(Debug, Clone)]
pub struct EnvConfig {
    pub rust_log: String,
    pub rust_backtrace: u32,
}

/// How the instance serves.
#[derive(Debug, Clone)]
pub struct AppConfig {
    pub port: u16,
    pub environment: String,
}

/// How the instance protects what it sends and whom it lets in.
#[derive(Debug, Clone)]
pub struct SecurityConfig {
    pub encrypt: SecurityEnryptConfig,
    pub auth_remote: SecurityAuthRemoteConfig,
}

/// How messages are encrypted and signed.
#[derive(Debug, Clone)]
pub struct SecurityEnryptConfig {
    pub algorithm: String,
    pub key: String,
    pub auth_password: String,
}

/// Who may log in from afar.
#[derive(Debug, Clone)]
pub struct SecurityAuthRemoteConfig {
    pub username: String,
    pub password: String,
}

/// The settings of the monitor.
#[derive(Debug, Clone)]
pub struct MonitorConfig {
    pub disk_usage: DiskUsageMonitorConfig,
    pub open_port: OpenPortMonitorConfig,
    pub task_status: TaskStatusMonitorConfig,
}

/// When the use of a disk is reported.
#[derive(Debug, Clone)]
pub struct DiskUsageMonitorConfig {
    /// The share in use, in percent, from which a partition is reported.
    pub threshold: u8,
    pub is_active: bool,
}

/// Which open ports are reported.
#[derive(Debug, Clone)]
pub struct OpenPortMonitorConfig {
    pub high_risk_ports: Vec<u16>,
    pub is_active: bool,
}

/// Which states of tasks are reported.
#[derive(Debug, Clone)]
pub struct TaskStatusMonitorConfig {
    pub default_statuses: Vec<TaskStatus>,
    pub task_list: Vec<TaskListMonitorConfig>,
    pub is_active: bool,
}

/// Which states of one task are reported.
#[derive(Debug, Clone)]
pub struct TaskListMonitorConfig {
    pub name: String,
    pub statuses: Vec<TaskStatus>,
}

} // verus!
