[package]
name = "minirobot"
version = "0.1.0"
edition = "2021"
publish = false

[dependencies]
argon2 = { version = "0.5", features = ["std"] }
base64 = "0.22"
chrono = "0.4"
clap = "4"
colored = "2"
env_logger = "0.11"
log = "0.4"
pnet = "0.34"
rayon = "1"
ring = "0.17"
serde = { version = "1", features = ["derive"] }
serde_json = "1"
sysinfo = "0.30"
toml = "0.8"
uuid = { version = "1", features = ["v4"] }
