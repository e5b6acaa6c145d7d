[package]
name = "custom_channel"
version = "0.1.0"
edition = "2021"
publish = false

[dependencies]
async-trait = "0.1"
base64 = "0.22"
bytes = "1"
http = "1"
serde = { version = "1", features = ["derive"] }
serde_json = "1"
