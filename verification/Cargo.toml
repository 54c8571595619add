[package]
name = "bybit-shiprekt"
version = "0.1.0"
edition = "2021"
publish = false

[dependencies]
chrono = "0.4"
regex = "1"
rustelebot = "*"
separator = "*"
serde = { version = "1", features = ["derive"] }
serde_json = "1"
tokio = { version = "1", features = ["full"] }
tokio-tungstenite = { version = "0.17", features = ["native-tls"] }
tungstenite = { version = "0.17", features = ["native-tls"] }
url = "2"
