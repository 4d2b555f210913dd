[package]
name = "zork"
version = "0.1.0"
edition = "2021"
publish = false

[dependencies]
indexmap = { version = "2", features = ["serde"] }
regex = "1"
chrono = { version = "0.4", features = ["serde"] }
serde = { version = "1", features = ["derive"] }
serde_json = "1"
toml = "0.8"
clap = { version = "4", features = ["derive"] }
color-eyre = "0.6"
log = "0.4"
env_logger = "0.11"
walkdir = "2"
glob = "0.3"

[dev-dependencies]
tempfile = "3"
