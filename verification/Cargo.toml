[package]
name = "league-fan-assets"
version = "0.1.0"
edition = "2021"
publish = false

[dependencies]
anyhow = "1"
log = "0.4"
reqwest = { version = "0.12", features = ["json"] }
reqwest-middleware = "0.3"
reqwest-retry = "0.6"
serde = { version = "1", features = ["derive"] }
serde_json = "1"
simple_logger = "*"
thiserror = "1"
tokio = { version = "1", features = ["full"] }
ts-rs = "*"
