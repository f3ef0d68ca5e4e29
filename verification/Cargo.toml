[package]
name = "satellite-gcs-rts"
version = "0.1.0"
edition = "2021"
publish = false

[dependencies]
bincode = "1.3"
bytes = "1"
clap = { version = "4", features = ["derive"] }
crossterm = "0.27"
futures = "0.3"
hdrhistogram = { version = "7.5", default-features = false }
rand = "0.8"
ratatui = "0.26"
serde = { version = "1", features = ["derive"] }
serde_arrays = "0.1"
tokio = { version = "1", features = ["full"] }
tokio-util = { version = "0.7", features = ["codec", "rt"] }
tracing = "0.1"
tracing-appender = "0.2"
tracing-subscriber = { version = "0.3", features = ["env-filter"] }
windows-sys = { version = "0.52", features = ["Win32_Foundation", "Win32_Media", "Win32_System_Threading"] }
