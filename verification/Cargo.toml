[package]
name = "skulk"
version = "0.1.0"
edition = "2021"
publish = false

[dependencies]
serde_json = "1"
serde = { version = "1", features = ["derive"] }
thiserror = "1"
tokio = { version = "1", features = ["process", "io-util", "sync", "rt"] }
async-trait = "0.1"
parking_lot = "0.12"
tracing = "0.1"
warhorn = "*"
