[package]
name = "nmvi"
version = "0.1.0"
edition = "2021"
publish = false

[dependencies]
anyhow = "*"
ratatui = "*"
tokio = { version = "*", features = ["rt-multi-thread", "macros", "sync", "time"] }
tui-big-text = "*"
