[package]
name = "disclosure_provider"
version = "0.1.0"
edition = "2021"
publish = false

[dependencies]
askama = "0.12"
base64 = "0.13"
josekit = "0.7"
reqwest = "0.11"
rocket = { version = "0.5", features = ["json"] }
serde = { version = "1", features = ["derive"] }
serde_json = "1"
serde_yaml = "0.8"
