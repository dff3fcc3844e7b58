[package]
name = "elgato_autolight"
version = "0.1.0"
edition = "2021"
publish = false

[dependencies]
anyhow = "*"
clap = { version = "*", features = ["derive"] }
ctrlc = "*"
serde = { version = "*", features = ["derive"] }
toml = "*"
