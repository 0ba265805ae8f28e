[package]
name = "bdrive"
version = "0.1.0"
edition = "2021"
publish = false

[dependencies]
hex = "0.4"
ring = "0.17"
walkdir = "2"
ssh2 = "0.9"
tokio = { version = "1", features = ["rt-multi-thread", "macros", "net"] }
toml = "0.8"
serde = { version = "1", features = ["derive"] }
indicatif = "0.17"
mongodb = "2"
