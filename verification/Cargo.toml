[package]
name = "live_speech"
version = "0.1.0"
edition = "2021"
publish = false

[dependencies]
anyhow = "1"
base64 = "0.22"
cpal = "0.15"
futures-util = "0.3"
googleapis-tonic-google-cloud-speech-v2 = "*"
rustls = { version = "0.23", default-features = false, features = ["ring", "std", "logging", "tls12"] }
serde = { version = "1", features = ["derive"] }
serde_json = "1"
tokio = { version = "1", features = ["macros", "rt-multi-thread", "signal", "sync", "time", "net"] }
tokio-stream = "0.1"
tokio-tungstenite = { version = "*", features = ["rustls-tls-native-roots"] }
tonic = { version = "*", features = ["tls-ring", "tls-native-roots"] }
