[package]
name = "shell"
version = "0.1.0"
edition = "2021"
publish = false

[dependencies]
zip = { version = "*", default-features = false, features = ["deflate"] }
serde = { version = "1", features = ["derive"] }
serde_json = "1"
toml = "*"
