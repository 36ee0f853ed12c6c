[package]
name = "mcp_harness"
version = "0.1.0"
edition = "2021"
publish = false

[dependencies]
anyhow = "=1.0.104"
axum = "*"
env_logger = "=0.11.11"
log = "=0.4.34"
rmcp = { version = "=3.5.0", features = ["client", "transport-streamable-http-server", "transport-streamable-http-client-reqwest"] }
serde_json = "=1.0.151"
tokio = { version = "=1.53.2", features = ["full"] }
tracing = "=0.1.44"
tracing-subscriber = { version = "=0.3.23", features = ["env-filter"] }
