[package]
name = "teleop_ui"
version = "0.1.0"
edition = "2021"
publish = false

[dependencies]
chrono = "=0.4.45"
keyring = { version = "=3.6.3", default-features = false }
