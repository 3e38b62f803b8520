[package]
name = "mockchain"
version = "0.1.0"
edition = "2021"
publish = false

[dependencies]
ed25519-dalek = "2"
blake2 = "0.10"
schnorrkel = "0.11"
hex = "0.4"
