[package]
name = "lockbox"
version = "0.1.0"
edition = "2021"
publish = false

[dependencies]
uuid = { version = "*", features = ["v4"] }
serde = { version = "*", features = ["derive"] }
serde_json = "*"
chrono = "*"
axum = "*"
tokio = { version = "*", features = ["rt-multi-thread", "macros"] }
reqwest = { version = "*", default-features = false, features = ["json", "rustls-tls"] }
log = "*"
env_logger = "*"
thiserror = "*"
tower-http = { version = "*", features = ["cors"] }
aws-config = "*"
aws-sdk-sns = "*"
