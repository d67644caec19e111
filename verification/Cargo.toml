[package]
name = "media_convertor"
version = "0.1.0"
edition = "2021"
publish = false

[dependencies]
anyhow = "=1.0.104"
axum = { version = "0.7", features = ["multipart"] }
clap = { version = "=4.6.7", features = ["derive"] }
indicatif = "=0.18.6"
reqwest = { version = "=0.12.28", default-features = false, features = ["blocking", "json", "multipart"] }
serde = { version = "=1.0.229", features = ["derive"] }
serde_json = "=1.0.154"
tempfile = "3"
tokio = { version = "1", features = ["rt-multi-thread", "macros", "net", "fs", "sync", "signal"] }
uuid = { version = "=1.29.0", features = ["v4"] }
