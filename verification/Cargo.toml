[package]
name = "tick_driver"
version = "0.1.0"
edition = "2021"
publish = false

[dependencies]
fugit = "=0.6.0"
critical-section = { version = "=1.2.0", features = ["std"] }
atomic-polyfill = "=1.0.3"
esp32c2 = "=0.31.0"
