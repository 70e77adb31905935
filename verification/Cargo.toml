[package]
name = "audio_bridge"
version = "0.1.0"
edition = "2021"
publish = false

[dependencies]
tokio = { version = "*", features = ["sync", "rt-multi-thread", "time", "macros"] }
cpal = "*"
rodio = "*"
futures = "*"
anyhow = "*"
