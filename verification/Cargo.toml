[package]
name = "dockstack"
version = "0.1.0"
edition = "2021"
publish = false

[dependencies]
crossbeam-channel = "0.5"
dirs = "5"
rcgen = "0.13"
serde = { version = "1", features = ["derive"] }
serde_yaml = "0.9"
toml = "0.8"
uuid = { version = "1", features = ["v4"] }
