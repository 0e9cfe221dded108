[package]
name = "chibi"
version = "0.1.0"
edition = "2021"
publish = false

[dependencies]
alsa = "0.9"
async-channel = "2"
cpal = "0.15"
rand = "0.9"
serde = { version = "1", features = ["derive"] }
toml = "0.8"
