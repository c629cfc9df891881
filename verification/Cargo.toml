[package]
name = "legal_moves"
version = "0.1.0"
edition = "2021"
publish = false

[dependencies]
goban = "*"
anyhow = "*"
clap = { version = "*", features = ["derive"] }
clap-stdin = "*"
