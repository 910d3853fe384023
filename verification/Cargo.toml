[package]
name = "near_cli"
version = "0.1.0"
edition = "2021"
publish = false

[dependencies]
serde_json = "*"
wasmparser = "*"
dialoguer = "*"
inquire = "*"
dirs = "*"
shellexpand = "*"
clap = { version = "*", features = ["derive"] }
url = "*"
