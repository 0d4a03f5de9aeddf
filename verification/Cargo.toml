[package]
name = "handshake_outcome"
version = "0.1.0"
edition = "2021"
publish = false

[dependencies]
ssb-crypto = "=0.1.4"
