[package]
name = "whisper_server"
version = "0.1.0"
edition = "2021"
publish = false

[dependencies]
actix-cors = "=0.7.2"
actix-multipart = "=0.6.2"
actix-web = "=4.18.1"
env_logger = "=0.11.11"
reqwest = "=0.11.27"
serde = { version = "=1.0.229", features = ["derive"] }
whisper-rs = "0.12"
