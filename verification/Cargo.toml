[package]
name = "fault_recorder"
version = "0.1.0"
edition = "2021"
publish = false

[dependencies]
chrono = "=0.4.45"
regex = "=1.13.1"
serde = { version = "=1.0.229", features = ["derive"] }
serde_json = "=1.0.154"
log = "=0.4.35"
indexmap = "2"
hashers = "1"
serde_yaml = "0.9"
signal-hook = "0.3"
rand = "0.8"
