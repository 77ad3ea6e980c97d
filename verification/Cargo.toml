[package]
name = "voxelnaut"
version = "0.1.0"
edition = "2021"
publish = false

[dependencies]
serde = { version = "1", features = ["derive"] }
bincode = "1"
toml = "0.8"
chrono = "0.4"
parking_lot = "0.12"
lazy_static = "1"
log = "0.4"
env_logger = "0.11"
serde_json = "1"
noise = "0.9"
