[package]
name = "voice_turn"
version = "0.1.0"
edition = "2021"
publish = false

[dependencies]
chrono = "=0.4.45"
cpal = "=0.15.3"
ollama-rs = "=0.3.6"
piper-rs = "=0.1.9"
regex = "=1.13.1"
rodio = "=0.20.1"
schemars = "=1.2.3"
serde = { version = "=1.0.229", features = ["derive"] }
serde_json = "=1.0.154"
tokio = { version = "=1.54.1", features = ["macros", "rt-multi-thread"] }
whisper-rs = "=0.14.4"
