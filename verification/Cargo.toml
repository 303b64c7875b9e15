[package]
name = "blake3_adapter"
version = "0.1.0"
edition = "2021"
publish = false

[dependencies]
blake3 = "1"
digest = "0.10"

[dev-dependencies]
hex = "0.4"
