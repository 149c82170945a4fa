[package]
name = "crane"
version = "0.1.0"
edition = "2021"
publish = false

[dependencies]
base64 = "*"
url = "*"
git2 = "*"
clap = { version = "*", features = ["derive"] }
home = "*"
