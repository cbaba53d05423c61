[package]
name = "agentic-api"
version = "0.1.0"
edition = "2021"
publish = false

[dependencies]
serde = { version = "=1.0.229", features = ["derive"] }
serde_json = "=1.0.154"
url = "=2.5.8"
uuid = { version = "=1.29.0", features = ["v7"] }
thiserror = "=2.0.21"
tracing = "=0.1.44"
http = "=1.5.0"
bytes = "=1.12.1"
tokio = { version = "=1.54.1", features = ["full"] }
tokio-util = "=0.7.20"
axum = "=0.8.9"
tower-http = { version = "=0.6.11", features = ["cors"] }
reqwest = { version = "=0.12.28", default-features = false }
rmcp = { version = "=3.8.0", features = ["client", "transport-child-process", "transport-streamable-http-client-reqwest"] }
