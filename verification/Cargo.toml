[package]
name = "rustflow_server"
version = "0.1.0"
edition = "2021"
publish = false

[dependencies]
axum = "0.8"
tokio = { version = "1", features = ["full"] }
tower = { version = "0.5", features = ["buffer", "limit", "load-shed", "util"] }
tower-http = { version = "0.6", features = ["cors", "compression-gzip", "fs"] }
reqwest = { version = "0.12", default-features = false, features = ["json", "rustls-tls"] }
serde = { version = "1", features = ["derive"] }
serde_json = "1"
thiserror = "2"
tracing = "0.1"
validator = { version = "0.20", features = ["derive"] }
