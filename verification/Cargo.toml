[package]
name = "cdn_pipeline"
version = "0.1.0"
edition = "2021"
publish = false

[dependencies]
ring = "0.17"
hex = "0.4"
uuid = { version = "1", features = ["v7"] }
sled = "0.34"
tokio = { version = "1", features = ["full"] }
axum = "0.8"
reqwest = { version = "0.12", default-features = false, features = ["rustls-tls", "stream"] }
rust-s3 = "0.35"
futures = "0.3"
tokio-util = { version = "0.7", features = ["io"] }
serde = { version = "1", features = ["derive"] }
serde_json = "1"
