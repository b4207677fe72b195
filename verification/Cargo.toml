[package]
name = "rachaels_transcriber"
version = "0.1.0"
edition = "2021"
publish = false

[dependencies]
webrtc-vad = "0.4"
directories = "5"
anyhow = "1"
serde = { version = "1", features = ["derive"] }
clap = { version = "4", features = ["derive"] }
tokio = { version = "1", features = ["rt-multi-thread", "fs", "io-util", "macros"] }
reqwest = { version = "0.12", default-features = false, features = ["rustls-tls", "stream"] }
futures-util = "0.3"
symphonia = { version = "0.5", features = ["mp3", "aac", "isomp4"] }
rubato = "0.15"
hound = "3"
cpal = "0.15"
whisper-rs = "0.13"
parking_lot = "0.12"
log = "0.4"
env_logger = "0.11"
