[package]
name = "kanto"
version = "0.1.0"
edition = "2021"
publish = false

[dependencies]
affinity = "0.1"
anyhow = "1"
serde = { version = "1", features = ["derive"] }
thread-priority = "*"
tokio = { version = "1", features = ["full"] }
