[package]
name = "taquba-mcp"
version = "0.1.0"
edition = "2021"
publish = false

[dependencies]
axum = "0.8"
bytes = "1"
chrono = "=0.4.45"
futures = "0.3"
rmcp = { version = "=1.7.0", features = ["server", "macros", "transport-io", "transport-streamable-http-server"] }
serde = { version = "1", features = ["derive"] }
serde_json = "=1.0.154"
taquba = "=0.8.0"
thiserror = "2"
tokio = { version = "1", features = ["full"] }
tokio-util = "0.7"
tracing = "0.1"
ulid = "=1.2.1"
