[package]
name = "awswap"
version = "0.1.0"
edition = "2021"
publish = false

[dependencies]
clap = { version = "4", features = ["derive"] }
inquire = "*"
owo-colors = { version = "4", features = ["supports-colors"] }
serde_json = "1"
