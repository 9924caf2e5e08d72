[package]
name = "audio_engine"
version = "0.1.0"
edition = "2021"
publish = false

[dependencies]
realfft = "*"
pitch-detection = "*"
serde = { version = "1", features = ["derive"] }
