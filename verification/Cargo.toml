[package]
name = "tauri_redis"
version = "0.1.0"
edition = "2021"
publish = false

[dependencies]
anyhow = "=1.0.104"
chrono = "=0.4.45"
config = { version = "=0.13.4", default-features = false, features = ["toml"] }
fred = { version = "=8.0.6", features = ["partial-tracing"] }
fs_extra = "=1.3.0"
futures = "=0.3.34"
once_cell = "=1.21.4"
regex = "=1.13.1"
reqwest = { version = "0.11", default-features = false }
serde = { version = "=1.0.229", features = ["derive"] }
serde_json = "=1.0.154"
thiserror = "=1.0.69"
tokio = { version = "=1.54.1", features = ["full"] }
uuid = { version = "=1.29.0", features = ["v4"] }
