[package]
name = "advoid"
version = "0.1.0"
edition = "2021"
publish = false

[dependencies]
anyhow = "*"
async-trait = "*"
aws-config = { version = "*", default-features = false }
aws-sdk-s3 = { version = "*", default-features = false }
axum = "*"
chrono = "=0.4.45"
clap = { version = "*", features = ["derive"] }
hickory-client = "=0.25.2"
hickory-proto = "=0.25.2"
hickory-server = "=0.25.2"
metrics = "*"
metrics-exporter-prometheus = { version = "*", default-features = false }
reqwest = { version = "*", default-features = false, features = ["form", "json"] }
serde = { version = "*", features = ["derive"] }
tokio = { version = "*", features = ["full"] }
tokio-util = "*"
tracing = "*"
tracing-subscriber = { version = "*", features = ["env-filter"] }
uuid = { version = "=1.27.0", features = ["v7"] }
