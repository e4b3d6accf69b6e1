[package]
name = "netwatch_agent"
version = "0.1.0"
edition = "2021"
publish = false

[dependencies]
pbkdf2 = "0.12"
hmac = "0.12"
sha2 = "0.10"
hex = "0.4"
serde = { version = "1", features = ["derive"] }
serde_json = "1"
