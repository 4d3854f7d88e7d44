[package]
name = "seriust"
version = "0.1.0"
edition = "2021"
publish = false

[dependencies]
clap = { version = "4", features = ["derive"] }
crossterm = "*"
ratatui = { version = "*", features = ["unstable-rendered-line-info"] }
serialport = { version = "4", default-features = false }
strip-ansi-escapes = "*"
