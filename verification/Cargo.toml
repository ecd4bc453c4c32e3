[package]
name = "autohedge"
version = "0.1.0"
edition = "2021"
publish = false

[dependencies]
async-openai = "=0.28.3"
async-trait = "=0.1.92"
axum = "=0.7.9"
chrono = "=0.4.45"
dashmap = "=6.2.1"
dotenvy = "=0.15.7"
futures-util = "=0.3.34"
reqwest = { version = "=0.12.28", default-features = false, features = ["json", "rustls-tls"] }
serde = { version = "=1.0.229", features = ["derive"] }
serde_json = "=1.0.154"
serde_yaml = "=0.9.34"
thiserror = "=1.0.69"
tokio = { version = "=1.54.1", features = ["full"] }
tokio-cron-scheduler = "=0.15.1"
tokio-tungstenite = { version = "=0.21.0", features = ["rustls-tls-webpki-roots"] }
tracing = "=0.1.44"
tracing-subscriber = "=0.3.23"
uuid = { version = "=1.29.0", features = ["v4"] }
