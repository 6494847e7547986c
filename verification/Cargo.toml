[package]
name = "kyf_log"
version = "0.1.0"
edition = "2021"
publish = false

[dependencies]
chrono = "*"
env_logger = "*"
log = "*"
serde_json = "*"
