[package]
name = "mcp_qdrant"
version = "0.1.0"
edition = "2021"
publish = false

[dependencies]
constant_time_eq = "0.3"
anyhow = "1"
axum = "0.8"
dotenvy = "0.15"
fastembed = { version = "5", default-features = false, features = ["hf-hub-rustls-tls", "ort-load-dynamic"] }
qdrant-client = { version = "1", default-features = false }
rmcp = { version = "*", features = ["server", "macros", "transport-streamable-http-server"] }
serde = { version = "1", features = ["derive"] }
serde_json = "1"
tokio = { version = "1", features = ["full"] }
tracing = "0.1"
tracing-subscriber = { version = "0.3", features = ["env-filter"] }
