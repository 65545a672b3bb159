[package]
name = "clustrctrl"
version = "0.1.0"
edition = "2021"
publish = false

[dependencies]
tokio = { version = "1", features = ["full"] }
chrono = "0.4"
rand = "0.9"
ratatui = "0.29"
crossterm = "0.28"
color-eyre = "0.6"
tracing = "0.1"
tracing-appender = "0.2"
tracing-subscriber = { version = "0.3", features = ["env-filter"] }
tui-logger = { version = "0.14", features = ["tracing-support"] }
