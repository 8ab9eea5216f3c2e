[package]
name = "rate_limiter_aimd"
version = "0.1.0"
edition = "2021"
publish = false

[dependencies]
bon = "3"
bytes = "1"
futures = "0.3"
http = "1"
metrics = "0.24"
rand = "0.9"
reqwest = { version = "0.12", default-features = false, features = ["rustls-tls"] }
serde = { version = "1", features = ["derive"] }
serde_json = "1"
snafu = "0.8"
tokio = { version = "1", features = ["time"] }
tower = { version = "0.4", features = ["retry", "timeout", "util"] }
tracing = "0.1"
url = "2"
