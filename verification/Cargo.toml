[package]
name = "squadconv"
version = "0.1.0"
edition = "2021"
publish = false

[dependencies]
anyhow = "1"
config = "0.10"
envsubst = "0.2"
flexi_logger = "0.17"
log = "0.4"
serde = { version = "1", features = ["derive"] }
serde_json = "1"
serde_yaml = "0.8"
structopt = "0.3"
thiserror = "1"
