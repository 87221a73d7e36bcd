[package]
name = "webos_client"
version = "0.1.0"
edition = "2021"
publish = false

[dependencies]
serde_json = "1"
tokio = { version = "1", features = ["net", "rt"] }
tokio-tungstenite = "*"
futures-util = "0.3"
pinky-swear = "*"
log = "0.4"
url = "2"
