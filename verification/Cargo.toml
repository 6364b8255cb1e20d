[package]
name = "prompt_gateway"
version = "0.1.0"
edition = "2021"
publish = false

[dependencies]
serde_json = "=1.0.151"
reqwest = { version = "=0.12.28", default-features = false }
tauri = { version = "=2.12.1", default-features = false }
