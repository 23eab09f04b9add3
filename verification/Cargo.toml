[package]
name = "kurl"
version = "0.1.0"
edition = "2021"
publish = false

[dependencies]
argh = "0.1"
env_logger = "0.11"
log = "0.4"
reqwest = { version = "0.12", features = ["blocking"] }
