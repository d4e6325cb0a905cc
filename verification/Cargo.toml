[package]
name = "nexus_node"
version = "0.1.14"
edition = "2021"
publish = false

[dependencies]
anyhow = "1"
axum = { version = "0.7", features = ["ws"] }
bcs = "0.1"
blake3 = "1"
futures = "0.3"
hex = "0.4"
http = "1"
libp2p = { version = "0.54", default-features = false }
metrics = "0.24"
metrics-exporter-prometheus = { version = "0.16", default-features = false }
parking_lot = "0.12"
serde = { version = "1", features = ["derive"] }
serde_json = "1"
thiserror = "1"
tokio = { version = "1", features = ["full"] }
tower-http = { version = "0.6", features = ["cors", "request-id", "trace"] }
tracing = "0.1"
