[package]
name = "rtre"
version = "0.1.0"
edition = "2021"
publish = false

[dependencies]
anyhow = "=1.0.104"
futures-util = { version = "=0.3.34", features = ["sink"] }
log = "=0.4.34"
serde_json = "=1.0.154"
tokio = { version = "=1.54.1", features = ["rt-multi-thread", "net"] }
tokio-tungstenite = { version = "=0.21.0", features = ["native-tls"] }
url = "=2.5.8"
