[package]
name = "gesture_os_control"
version = "0.1.0"
edition = "2021"
publish = false

[dependencies]
serde = { version = "=1.0.229", features = ["derive"] }
serde_json = "=1.0.154"
eframe = { version = "=0.31.1", default-features = false, features = ["default_fonts", "glow", "x11"] }
nokhwa = { version = "=0.10.11", default-features = false }
