[package]
name = "radroots_cli"
version = "0.1.0"
edition = "2021"
publish = false

[dependencies]
url = "2.5"
chrono = "0.4"
serde = { version = "1", features = ["derive"] }
serde_json = "1"
toml = "0.8"
thiserror = "1"
