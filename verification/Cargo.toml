[package]
name = "voice_cooldown"
version = "0.1.0"
edition = "2021"
publish = false

[dependencies]
dotenv = "=0.15.0"
log = "=0.4.34"
pretty_env_logger = "=0.4.0"
teloxide = { version = "=0.5.3", features = ["auto-send"] }
tokio = { version = "=1.54.1", features = ["rt-multi-thread", "macros"] }
tokio-stream = "=0.1.19"
tokio-util = { version = "=0.6.10", features = ["codec"] }
