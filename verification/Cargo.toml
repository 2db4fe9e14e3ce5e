[package]
name = "ss7-billing"
version = "0.1.0"
edition = "2021"
publish = false

[dependencies]
uuid = { version = "1", features = ["v4"] }
chrono = "0.4"
serde = { version = "1", features = ["derive"] }
thiserror = "1"
rusqlite = { version = "0.31", features = ["bundled"] }
tokio = { version = "1", features = ["full"] }
russh = "0.44"
russh-keys = "0.44"
async-trait = "0.1"
ratatui = "0.28"
env_logger = "0.11"
