[package]
name = "vr_tracker"
version = "0.1.0"
edition = "2021"
publish = false

[dependencies]
anyhow = "*"
clap = { version = "*", features = ["derive"] }
openvr = "*"
socket2 = "*"

[dev-dependencies]
serde_json = "*"
