[package]
name = "aiko"
version = "0.1.0"
edition = "2021"
publish = false

[dependencies]
uuid = { version = "1", features = ["v4"] }
serde = { version = "1", features = ["derive"] }
serde_json = "1"
bincode = "1"
thiserror = "1"
tokio = { version = "1", features = ["full"] }
async-trait = "0.1"
tracing = "0.1"
dashmap = "5"
futures = "0.3"
bytes = "1"
rumqttc = "0.24"
webrtc = "0.11"
tokio-tungstenite = "0.21"
openh264 = "0.6"
audiopus = "0.2"
