[package]
name = "audio_sessions"
version = "0.1.0"
edition = "2021"
publish = false

[dependencies]
serde = { version = "=1.0.229", features = ["derive"] }
serde_json = "*"
windows = "=0.62.2"
tungstenite = "=0.30.0"
