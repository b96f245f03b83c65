[package]
name = "ttl_legacy"
version = "0.1.0"
edition = "2021"
publish = false

[dependencies]
soroban-sdk = "29"
chrono = { version = "=0.4.45", features = ["serde"] }
serde = { version = "=1.0.229", features = ["derive"] }
serde_json = "=1.0.154"
tokio = { version = "=1.54.1", features = ["rt-multi-thread", "macros", "time", "sync", "net"] }
tokio-tungstenite = "=0.21.0"
futures = "=0.3.34"
tracing = "=0.1.44"

[dev-dependencies]
soroban-sdk = { version = "29", features = ["testutils"] }
