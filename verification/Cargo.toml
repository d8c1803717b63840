[package]
name = "agents_relay"
version = "0.2.0"
edition = "2021"
publish = false

[dependencies]
anyhow = "1"
axum = { version = "=0.7.9", default-features = false, features = ["http1", "tokio"] }
chrono = "=0.4.45"
clap = { version = "4", features = ["derive", "env"] }
dirs = "=5.0.1"
reqwest = { version = "=0.12.28", default-features = false, features = ["blocking"] }
rusqlite = { version = "=0.31.0", features = ["bundled"] }
serde = { version = "1", features = ["derive"] }
serde_json = "=1.0.154"
shellexpand = "=3.1.2"
tokio = { version = "1", features = ["full"] }
