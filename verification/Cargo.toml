[package]
name = "zuklink"
version = "0.1.0"
edition = "2021"
publish = false

[dependencies]
anyhow = "=1.0.104"
aws-config = { version = "=1.12.0", features = ["behavior-version-latest"] }
aws-sdk-s3 = "=1.152.0"
aws-types = ">=1.6.0, <1.7.0"
axum = "=0.8.9"
bytes = "=1.12.1"
chitchat = "=0.13.0"
chrono = { version = "=0.4.45", features = ["serde"] }
dotenvy = "=0.15.7"
serde = { version = "=1.0.229", features = ["derive"] }
thiserror = "=2.0.21"
tokio = { version = "=1.54.1", features = ["full"] }
tracing = "=0.1.44"
tracing-subscriber = "=0.3.23"
utoipa = "=6.0.0"
utoipa-swagger-ui = { version = "=10.0.2", features = ["axum", "vendored"] }
uuid = { version = "=1.29.0", features = ["v7", "serde"] }
