[package]
name = "tomotroid"
version = "0.1.0"
edition = "2021"
publish = false

[dependencies]
anyhow = "1"
serde = { version = "1", features = ["derive"] }
serde_json = "1"
notify-rust = "4"
global-hotkey = "*"
single-instance = "*"
hex_color = { version = "*", features = ["serde"] }
