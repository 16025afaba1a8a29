[package]
name = "transcribe"
version = "0.1.0"
edition = "2021"
publish = false

[dependencies]
amqprs = "2"
async-trait = "0.1"
axum = { version = "0.8", features = ["multipart"] }
chrono = "0.4"
serde = { version = "1", features = ["derive"] }
serde_json = "1"
tokio = { version = "1", features = ["full"] }
tower-http = { version = "0.6", features = ["trace"] }
tracing = "0.1"
tracing-subscriber = "0.3"
uuid = { version = "1", features = ["v4"] }
