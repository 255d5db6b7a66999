[package]
name = "sentinelops"
version = "0.1.0"
edition = "2021"
publish = false

[dependencies]
sha2 = "=0.10.9"
hex = "=0.4.3"
uuid = { version = "=1.29.0", features = ["v4"] }
chrono = "=0.4.45"
serde = { version = "=1.0.229", features = ["derive"] }
serde_json = "=1.0.154"
rusqlite = { version = "=0.41.0", features = ["bundled"] }
thiserror = "=1.0.69"
walkdir = "=2.5.0"
dirs = "=5.0.1"
base64 = "0.22"
urlencoding = "2"
