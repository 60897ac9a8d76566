[package]
name = "keyring"
version = "1.0.0"
edition = "2021"
publish = false

[dependencies]
security-framework = "2"

[dev-dependencies]
rand = "0.8"
