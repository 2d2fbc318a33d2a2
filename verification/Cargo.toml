[package]
name = "cast"
version = "0.1.0"
edition = "2021"
publish = false

[dependencies]
anyhow = "1"
camino = "1"
clap = { version = "4", features = ["derive"] }
serde = { version = "1", features = ["derive"] }
serde_json = "1"
shellexpand = "3"
starknet = "*"
tokio = { version = "1", features = ["rt", "rt-multi-thread"] }
toml = "0.8"
