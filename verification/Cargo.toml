[package]
name = "server_bot"
version = "0.1.0"
edition = "2021"
publish = false

[dependencies]
anyhow = "1"
chrono = "0.4"
config = "0.13"
fern = { version = "0.6", features = ["colored"] }
futures = "0.3"
linked_hash_set = "=0.1.6"
log = "0.4"
poise = "=0.6.2"
serde = { version = "1", features = ["derive"] }
serde_yaml = "0.9"
serenity = "=0.12.5"
tokio = { version = "1", features = ["full"] }
tokio-stream = { version = "0.1", features = ["io-util"] }
