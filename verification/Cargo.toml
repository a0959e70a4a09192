[package]
name = "shell_ide"
version = "0.1.0"
edition = "2021"
publish = false

[dependencies]
base64 = "0.22"
bollard = "0.18"
chrono = { version = "0.4", features = ["serde"] }
dirs = "5"
futures-util = "0.3"
ring = "0.17"
rusqlite = { version = "0.31", features = ["bundled"] }
serde = { version = "1", features = ["derive"] }
serde_json = "1"
serde_yaml = "0.9"
thiserror = "1"
tokio = { version = "1", features = ["full"] }
tracing = "0.1"
tracing-subscriber = { version = "0.3", features = ["env-filter"] }
uuid = { version = "1", features = ["v4"] }
