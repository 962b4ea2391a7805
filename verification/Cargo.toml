[package]
name = "ha_client"
version = "0.1.0"
edition = "2021"
publish = false

[dependencies]
anyhow = "1"
homeassistant-rs = "*"
tokio = { version = "1", features = ["time"] }
