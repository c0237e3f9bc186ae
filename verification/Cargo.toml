[package]
name = "api_deprecation"
version = "0.1.0"
edition = "2021"
publish = false

[dependencies]
chrono = "0.4"
globset = "0.4"
serde = { version = "1", features = ["derive"] }
serde_yaml = "0.9"
clap = { version = "4", features = ["derive"] }
anyhow = "1"
prometheus = "0.13"
