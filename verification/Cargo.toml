[package]
name = "runtime-service"
version = "0.1.0"
edition = "2021"
publish = false

[dependencies]
dashmap = "6"
hmac = "0.12"
sha2 = "0.10"
hex = "0.4"
serde = { version = "1", features = ["derive"] }
serde_json = "1"
serde_urlencoded = "0.7"
uuid = { version = "1", features = ["v4"] }
chrono = "0.4"
once_cell = "1"
anyhow = "1"
tokio = { version = "1", features = ["full"] }
axum = { version = "0.8", features = ["ws"] }
axum-server = "0.7"
reqwest = { version = "0.12", default-features = false }
tower-http = { version = "0.6", features = ["cors"] }
futures-util = { version = "0.3", features = ["sink"] }
tokio-tungstenite = "0.26"
tracing = "0.1"
tracing-subscriber = { version = "0.3", features = ["env-filter"] }
