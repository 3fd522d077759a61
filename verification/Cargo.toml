[package]
name = "daph"
version = "0.1.0"
edition = "2021"
publish = false

[dependencies]
color-eyre = "0.6"
crossterm = "0.28"
env_logger = "0.11"
home = "0.5"
lofty = "0.22"
ratatui = "0.29"
rodio = "0.20"
serde = { version = "1", features = ["derive"] }
toml = "0.8"
walkdir = "2"
