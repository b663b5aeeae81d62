[package]
name = "gubtool"
version = "0.1.0"
edition = "2021"
publish = false

[dependencies]
pelite = "=0.10.0"
serde = { version = "=1.0.229", features = ["derive"] }
bincode = "=1.3.3"
clap = { version = "=4.6.7", features = ["derive"] }
chrono = "=0.4.45"
toml = "0.8"
