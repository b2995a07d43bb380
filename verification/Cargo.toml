[package]
name = "mirmir_tui"
version = "0.1.0"
edition = "2021"
publish = false

[dependencies]
crossterm = { version = "*", features = ["event-stream"] }
ratatui = "*"
tokio = { version = "1", features = ["rt", "time", "macros", "sync"] }
futures-util = "*"
tonic = "*"
libmir = "*"
