[package]
name = "idle_render"
version = "0.1.0"
edition = "2021"
publish = false

[dependencies]
png = "0.17"
clap = { version = "4", features = ["derive"] }
serde = { version = "1", features = ["derive"] }
serde_json = "1"
thiserror = "1"
tracing = "0.1"
tracing-subscriber = { version = "0.3", features = ["env-filter"] }
crossterm = "0.28"
ratatui = "0.29"
