[package]
name = "chat_generation"
version = "0.1.0"
edition = "2021"
publish = false

[dependencies]
anyhow = "*"
candle-transformers = "*"
chrono = "*"
minijinja = { version = "*", features = ["loader"] }
tokenizers = "*"
