[package]
name = "ptx_builder"
version = "0.1.0"
edition = "2021"
publish = false

[dependencies]
toml = "0.9"
semver = "=1.0.28"
serde_json = "=1.0.154"
