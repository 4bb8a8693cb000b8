[package]
name = "tableland_bridge"
version = "0.1.0"
edition = "2021"
publish = false

[dependencies]
base64 = "*"
http = "*"
serde = { version = "*", features = ["derive"] }
serde_bytes = "*"
