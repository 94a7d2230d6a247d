[package]
name = "brick_channel"
version = "0.7.4"
edition = "2021"
publish = false

[dependencies]
anyhow = "1"
async-trait = "0.1"
futures-util = "0.3"
serde = { version = "1", features = ["derive"] }
serde_json = "1"
tokio = { version = "1", features = ["fs", "macros", "net", "rt", "sync", "time"] }
tokio-tungstenite = "0.26"
tracing = "0.1"
uuid = { version = "1", features = ["v4"] }
