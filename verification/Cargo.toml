[package]
name = "rivetr"
version = "0.1.0"
edition = "2021"
publish = false

[dependencies]
serde = { version = "1", features = ["derive"] }
serde_json = "1"
regex = "1"
uuid = { version = "1", features = ["v4"] }
rand = "0.9"
hex = "0.4"
sha2 = "0.10"
subtle = "2"
argon2 = "0.5"
chrono = "0.4"
base64 = "0.22"
anyhow = "1"
axum = "0.7"
