[package]
name = "ld_webhook"
version = "0.1.0"
edition = "2021"
publish = false

[dependencies]
rust-crypto = "0.2.36"
hex = "0.3"
env_logger = "0.6"
envy = "0.4"
failure = "0.1"
lambda_http = "0.1"
lambda_runtime = "0.2"
log = "0.4"
reqwest = "0.9"
serde = { version = "1", features = ["derive"] }
serde_json = "1"
