[package]
name = "rs_mock_server"
version = "0.1.0"
edition = "2021"
publish = false

[dependencies]
serde = { version = "=1.0.229", features = ["derive"] }
serde_json = { version = "=1.0.154", features = ["float_roundtrip"] }
toml = "=1.1.8"
uuid = { version = "=1.29.0", features = ["v4"] }
ratatui = "=0.30.2"
crossterm = "=0.29.0"
clap = { version = "=4.6.7", features = ["derive"] }
regex = "=1.13.1"
