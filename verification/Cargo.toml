[package]
name = "wattson"
version = "0.1.0"
edition = "2021"
publish = false

[dependencies]
anyhow = "1"
chrono = "0.4"
clap = { version = "4", features = ["derive"] }
crossbeam-channel = "0.5"
crossterm = "0.28"
csv = "1"
ratatui = "0.29"
serialport = { version = "4", default-features = false }
