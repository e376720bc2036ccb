[package]
name = "roborace2023"
version = "0.1.0"
edition = "2021"
publish = false

[dependencies]
anyhow = "1"
ev3dev-lang-rust = { version = "*", features = ["screen"] }
image = "*"
serde = { version = "1", features = ["derive"] }
toml = "*"
