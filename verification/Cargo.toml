[package]
name = "yandere_companion"
version = "0.1.11"
edition = "2021"
publish = false

[dependencies]
anyhow = "1"
chrono = "0.4"
uuid = { version = "1", features = ["v4"] }
serde = { version = "1", features = ["derive"] }
serde_json = "1"
toml = "0.8"
rusqlite = { version = "0.31", features = ["bundled"] }
reqwest = { version = "0.12", default-features = false, features = ["json"] }
tokio = { version = "1", features = ["full"] }
axum = "0.7"
libc = "0.2"
