[package]
name = "sapi"
version = "0.1.0"
edition = "2021"
publish = false

[dependencies]
reqwest = { version = "0.9", features = ["hyper-011"] }
serde = { version = "1", features = ["derive"] }
serde_json = "1"
slog = "2"
