[package]
name = "voice_daemon"
version = "0.1.0"
edition = "2021"
publish = false

[dependencies]
chrono = "=0.4.45"
dashmap = "=6.2.1"
poise = "=0.6.2"
rand = "=0.8.8"
tokio = { version = "1", features = ["sync"] }
tracing = "0.1"
uuid = { version = "=1.29.0", features = ["v4"] }
