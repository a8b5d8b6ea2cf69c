[package]
name = "slados"
version = "0.1.0"
edition = "2021"
publish = false

[dependencies]
hyper = { version = "0.14", features = ["full"] }
tokio = { version = "1", features = ["full"] }
serde = { version = "1", features = ["derive"] }
serde_json = "1"
serde_qs = "0.8"
toml = "0.5"
rand = "0.8"
socket2 = "0.3"
clap = "3"
log = "0.4"
env_logger = "0.9"
