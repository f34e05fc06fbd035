[package]
name = "kcheck"
version = "0.1.0"
edition = "2021"
publish = false

[dependencies]
clap = { version = "4", features = ["derive"] }
cli-table = "0.4"
flate2 = "1"
nix = { version = "*", features = ["feature"] }
serde = { version = "1", features = ["derive"] }
serde_json = "1"
toml = "0.8"
