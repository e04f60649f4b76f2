[package]
name = "softkvm"
version = "0.1.0"
edition = "2021"
publish = false

[dependencies]
anyhow = "1"
chrono = "0.4"
env_logger = "0.10"
lazy_static = "1"
log = "0.4"
rdev = "0.5"
serde = { version = "1", features = ["derive"] }
serde_yaml = "0.9"
