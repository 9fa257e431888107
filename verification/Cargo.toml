[package]
name = "loop_pad"
version = "0.1.0"
edition = "2021"
publish = false

[dependencies]
anyhow = "*"
crossbeam-channel = "*"
env_logger = "*"
hidapi = "*"
log = "*"
serde = { version = "*", features = ["derive"] }
toml = "*"
