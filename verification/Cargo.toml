[package]
name = "jjdag"
version = "0.1.0"
edition = "2021"
publish = false

[dependencies]
ansi-to-tui = "*"
anyhow = "1"
chrono = "0.4"
clap = { version = "4", features = ["derive"] }
crossterm = "*"
indexmap = "2"
log = "0.4"
ratatui = "*"
tempfile = "3"
