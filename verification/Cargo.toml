[package]
name = "bamboo"
version = "0.1.0"
edition = "2021"
publish = false

[dependencies]
anyhow = "1"
async-trait = "0.1"
axum = "0.7"
bytes = "1"
dashmap = "5"
http = "1"
http-body = "1"
hyper = "1"
log = "0.4"
serde = { version = "1", features = ["derive"] }
serde_json = "1"
tokio = { version = "1", features = ["macros", "net", "rt-multi-thread", "signal", "sync", "time"] }
tokio-graceful = "0.1"
tokio-stream = { version = "0.1", features = ["net"] }
tonic = "0.11"
tonic-health = "0.11"
tower = { version = "0.4", features = ["timeout", "util"] }
tower-http = { version = "0.5", features = ["request-id", "timeout", "trace", "util", "validate-request"] }
tower-layer = "0.3"
tower-service = "0.3"
tracing = "0.1"
validator = "0.18"
