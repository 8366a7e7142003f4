[package]
name = "secretspec"
version = "0.1.0"
edition = "2021"
publish = false

[dependencies]
url = "2"
secrecy = "0.10"
serde = { version = "1", features = ["derive"] }
