[package]
name = "project_ctl"
version = "0.1.0"
edition = "2021"
publish = false

[dependencies]
anyhow = "1"
clap = { version = "4", features = ["derive"] }
comfy-table = "7"
dirs = "7"
owo-colors = "4"
serde = { version = "1", features = ["derive"] }
serde_yaml = "0.9"
toml = "=1.1.8"
walkdir = "2"
