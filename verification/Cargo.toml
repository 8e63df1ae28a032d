[package]
name = "lich"
version = "0.1.0"
edition = "2021"
publish = false

[dependencies]
minijinja = "*"
clap = { version = "*", features = ["derive"] }
serde = { version = "*", features = ["derive"] }
toml = "*"
