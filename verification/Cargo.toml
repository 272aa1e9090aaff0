[package]
name = "luma"
version = "0.1.0"
edition = "2021"
publish = false

[dependencies]
clap = { version = "4", features = ["derive"] }
crossterm = { version = "*", features = ["event-stream"] }
env_logger = "*"
futures = "0.3"
log = "0.4"
ratatui = "*"
requestty = "*"
serde = { version = "1", features = ["derive"] }
serde_json = "1"
thiserror = "1"
tokio = { version = "1", features = ["macros", "rt-multi-thread", "sync", "time"] }
