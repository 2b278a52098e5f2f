[package]
name = "note_backend"
version = "0.1.0"
edition = "2021"
publish = false

[dependencies]
axum = "0.7"
serde_json = "1"
tokio = { version = "1", features = ["full"] }
tower-http = { version = "0.5", features = ["cors", "fs"] }
tracing = "0.1"
tracing-subscriber = "0.3"
