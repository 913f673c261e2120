[package]
name = "sprint_playlist"
version = "0.1.0"
edition = "2021"
publish = false

[dependencies]
clap = { version = "=3.2.25", features = ["derive"] }
env_logger = "=0.11.11"
open = "=5.4.5"
rspotify = { version = "0.12.0", features = ["cli"] }
rspotify-model = "0.12.0"
tokio = { version = "=1.54.1", features = ["macros", "rt-multi-thread"] }
