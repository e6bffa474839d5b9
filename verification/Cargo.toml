[package]
name = "puppycoder"
version = "0.1.0"
edition = "2021"
publish = false

[dependencies]
log = "0.4"
rfd = "*"
serde = { version = "1", features = ["derive"] }
serde_json = "1"
simple_logger = "*"
tokio = { version = "1", features = ["full"] }
wgui = "*"
