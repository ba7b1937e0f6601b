[package]
name = "ssc"
version = "0.1.0"
edition = "2021"
publish = false

[dependencies]
sonos = "*"
dirs = "*"

[dev-dependencies]
toml = "*"
