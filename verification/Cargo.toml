[package]
name = "secure_ws"
version = "0.1.0"
edition = "2021"
publish = false

[dependencies]
aes-gcm = "=0.10.3"
base64 = "=0.22.1"
serde_json = { version = "=1.0.154", features = ["preserve_order"] }
url = "=2.5.8"
serde = { version = "=1.0.229", features = ["derive"] }
tokio = { version = "=1.54.1", features = ["full"] }
futures-util = "=0.3.34"
tokio-tungstenite = { version = "=0.30.0", features = ["native-tls"] }
tungstenite = "=0.30.0"
native-tls = "=0.2.18"
tokio-native-tls = "=0.3.1"
parking_lot = "=0.12.5"
once_cell = "=1.21.4"
chrono = "=0.4.45"
encoding_rs = "=0.8.42"
libc = "=0.2.191"
