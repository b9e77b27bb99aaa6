[package]
name = "pizza_freak"
version = "0.1.0"
edition = "2021"
publish = false

[dependencies]
cheap_alerts = "=0.1.0"
chrono = { version = "=0.4.45", features = ["serde"] }
dirs = "=5.0.1"
env_logger = "=0.11.11"
log = "=0.4.34"
reqwest = { version = "=0.12.28", default-features = false, features = ["rustls-tls"] }
serde = { version = "=1.0.229", features = ["derive"] }
serde_json = "=1.0.154"
tokio = { version = "=1.54.1", features = ["rt-multi-thread", "time", "fs", "io-util", "signal"] }
toml = "=0.8.23"
tracing = "=0.1.44"
