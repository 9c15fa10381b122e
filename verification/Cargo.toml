[package]
name = "transcribble"
version = "0.1.0"
edition = "2021"
publish = false

[dependencies]
anyhow = "1"
chrono = { version = "0.4", features = ["serde"] }
clap = { version = "4", features = ["derive"] }
console = "0.15"
dialoguer = "0.11"
futures-util = "0.3"
indicatif = "0.17"
libc = "0.2"
rdev = "0.5"
reqwest = { version = "0.12", features = ["stream"] }
rusqlite = { version = "0.32", features = ["bundled"] }
serde = { version = "1", features = ["derive"] }
serde_json = "1"
tokio = { version = "1", features = ["full"] }
toml = "0.8"
whisper-rs = "0.13"
