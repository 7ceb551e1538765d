[package]
name = "telemetry_bridge"
version = "0.1.0"
edition = "2021"
publish = false

[dependencies]
esp-idf-svc = "*"
log = "0.4"
portable-atomic = { version = "1", features = ["float"] }
slint = { version = "1", default-features = false, features = ["std", "compat-1-2"] }
