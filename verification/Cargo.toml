[package]
name = "three_body"
version = "0.1.0"
edition = "2021"
publish = false

[dependencies]
serde = { version = "1", features = ["derive"] }
toml = "*"
anyhow = "1"
clap = { version = "4", features = ["derive"] }
