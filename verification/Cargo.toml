[package]
name = "shared_utils"
version = "0.1.0"
edition = "2021"
publish = false

[dependencies]
serde = { version = "1", features = ["derive"] }
serde_json = "1"
walkdir = "2"
anyhow = "1"
chrono = "0.4"
tracing = "0.1"

[dev-dependencies]
tempfile = "3"
