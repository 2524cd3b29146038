[package]
name = "skinbridge"
version = "0.1.0"
edition = "2021"
publish = false

[dependencies]
anyhow = "1"
aptos-sdk = "*"
dotenvy = "*"
env_logger = "*"
hex = "*"
log = "0.4"
serde_json = "1"
spacetimedb-sdk = "1.1.1"
tokio = { version = "1", features = ["full"] }
