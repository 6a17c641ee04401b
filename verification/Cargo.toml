[package]
name = "vocab_trainer"
version = "0.1.0"
edition = "2021"
publish = false

[dependencies]
anyhow = "1"
base64 = "0.22"
chrono = "0.4"
dotenvy = "0.15"
env_logger = "0.11"
log = "0.4"
parking_lot = "0.12"
rand = { version = "0.8", features = ["small_rng"] }
reqwest = { version = "0.12", default-features = false, features = ["json", "rustls-tls"] }
rusqlite = { version = "0.31", features = ["bundled"] }
serde = { version = "1", features = ["derive"] }
serde_json = "1"
tokio = { version = "1", features = ["rt-multi-thread", "time", "macros"] }
uuid = { version = "1", features = ["v4"] }
