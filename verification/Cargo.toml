[package]
name = "immortal-lab"
version = "0.1.0"
edition = "2021"
publish = false

[dependencies]
serde_json = "1"
tokio = { version = "1", features = ["rt", "rt-multi-thread", "time", "net", "io-util"] }
tokio-tungstenite = "*"
