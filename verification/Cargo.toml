[package]
name = "oatmeal"
version = "0.1.0"
edition = "2021"
publish = false

[dependencies]
anyhow = "*"
itertools = "*"
ratatui = "*"
tempfile = "*"
tokio = { version = "*", features = ["rt", "sync", "time", "process"] }
tracing = "*"
tui-textarea = "*"
