[package]
name = "chat_core"
version = "0.1.0"
edition = "2021"
publish = false

[dependencies]
futures = "0.3"
serde_json = "1.0"
tokio = { version = "1", features = ["full"] }
warp = "0.3"
