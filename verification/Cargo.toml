[package]
name = "tuisample-code"
version = "0.1.0"
edition = "2021"
publish = false

[dependencies]
crossterm = "0.28"
ratatui = "0.29"
tokio = { version = "1", features = ["macros", "rt-multi-thread", "sync", "time"] }
