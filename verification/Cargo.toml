[package]
name = "dionysius"
version = "0.1.0"
edition = "2021"
publish = false

[dependencies]
clap = "*"
serde = { version = "*", features = ["derive"] }
toml = "*"
walkdir = "*"
git2 = { version = "*", default-features = false }
