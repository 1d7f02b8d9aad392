[package]
name = "hear_one_device"
version = "0.1.0"
edition = "2021"
publish = false

[dependencies]
bytes = "1"
serde = { version = "1", features = ["derive"] }
serde_json = "1"
tokio = { version = "1", features = ["rt-multi-thread", "macros", "sync", "net"] }
axum = "0.8"
tower-http = { version = "0.6", features = ["fs"] }
local-ip-address = "0.6"
reqwest = { version = "0.12", default-features = false }
webrtc = "0.12"
cpal = "0.17"
libpulse-binding = "2"
libpulse-simple-binding = "2"
