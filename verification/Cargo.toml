[package]
name = "devme_tui"
version = "0.1.0"
edition = "2021"
publish = false

[dependencies]
ansi-to-tui = "7"
anyhow = "1"
base64 = "0.22"
crossterm = "0.28"
notify = "*"
ratatui = "0.29"
serde_json = "1"
tokio = { version = "1", features = ["full"] }
tracing = "0.1"
