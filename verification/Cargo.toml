[package]
name = "robot-pi"
version = "0.1.0"
edition = "2021"
publish = false

[dependencies]
anyhow = "1"
futures-util = "0.3"
rppal = "*"
serde_json = "1"
tokio = { version = "1", features = ["macros", "net", "rt-multi-thread", "sync"] }
tokio-tungstenite = "*"
