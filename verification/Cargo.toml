[package]
name = "barohead"
version = "0.1.0"
edition = "2021"
publish = false

[dependencies]
fuzzy-matcher = "*"
serde = { version = "1", features = ["derive"] }
serde_json = "1"
bincode = "1"
