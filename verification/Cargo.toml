[package]
name = "game_server"
version = "0.1.0"
edition = "2021"
publish = false

[dependencies]
anyhow = "1"
async-stream = "0.3"
axum = "0.8"
bytes = "1"
dashmap = "6"
http = "1"
prost-types = "0.13"
rand = "0.8"
regex = "1"
serde = { version = "1", features = ["derive"] }
serde_json = "1"
sha2 = "0.10"
thiserror = "2"
time = { version = "0.3", features = ["formatting"] }
tokio = { version = "1", features = ["full"] }
tokio-stream = { version = "0.1", features = ["net", "sync"] }
tonic = "0.13"
tonic-health = "0.13"
tonic-web = "0.13"
tower-http = { version = "0.6", features = ["cors", "fs", "trace"] }
tracing = "0.1"
uuid = { version = "1", features = ["v4", "v5"] }
