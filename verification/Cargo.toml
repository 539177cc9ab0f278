[package]
name = "rsftp"
version = "0.1.0"
edition = "2021"
publish = false

[dependencies]
notify = "4"
serde = { version = "1", features = ["derive"] }
ssh2 = "0.9"
toml = "*"
walkdir = "2"
