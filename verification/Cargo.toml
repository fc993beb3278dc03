[package]
name = "baseic"
version = "0.1.0"
edition = "2021"
publish = false

[dependencies]
indexmap = "2"
serde = { version = "1", features = ["derive"] }
toml = "*"
dirs = "*"
colored = "*"
