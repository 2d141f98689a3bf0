[package]
name = "image_trainer"
version = "0.1.0"
edition = "2021"
publish = false

[dependencies]
futures-util = "0.3"
local-ip-address = "0.6"
serde = { version = "1", features = ["derive"] }
serde_json = "1"
tokio = { version = "1", features = ["full"] }
tokio-tungstenite = "0.26"
