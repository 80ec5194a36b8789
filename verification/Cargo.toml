[package]
name = "codex-plus-core"
version = "0.1.0"
edition = "2021"
publish = false

[dependencies]
anyhow = "1"
directories = "*"
reqwest = { version = "0.12", default-features = false }
serde = { version = "1", features = ["derive"] }
serde_json = "1"
