[package]
name = "audio_engine"
version = "0.1.0"
edition = "2021"
publish = false

[dependencies]
lazy_static = "1.4"
notify = "*"
rodio = { version = "0.19", default-features = false }
serde = { version = "1", features = ["derive"] }
