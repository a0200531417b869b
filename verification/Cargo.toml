[package]
name = "block_import"
version = "0.1.0"
edition = "2021"
publish = false

[dependencies]
slog = "2"
tokio = { version = "1", default-features = false, features = ["sync"] }
