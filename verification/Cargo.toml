[package]
name = "buttplug"
version = "0.1.0"
edition = "2021"
publish = false

[dependencies]
dashmap = "*"
uuid = "*"
futures = "*"
futures-timer = "*"
thiserror = "*"
tokio = { version = "1", features = ["sync", "net", "rt"] }
async-tungstenite = { version = "*", features = ["tokio-runtime"] }
btleplug = "*"
