[package]
name = "retry"
version = "0.1.0"
edition = "2021"
publish = false

[dependencies]
rand = "0.8"
anyhow = "1"
tokio = { version = "1", features = ["rt", "time"] }
pin-project = "1"
crossterm = "0.25"
tui = "0.19"
