[package]
name = "soar"
version = "0.1.0"
edition = "2021"
publish = false

[dependencies]
serde = { version = "1", features = ["derive"] }
serde_json = "1"
bincode = "1"
url = "2"
log = "*"
env_logger = "*"
