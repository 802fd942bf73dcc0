[package]
name = "variable_explorer"
version = "0.1.0"
edition = "2021"
publish = false

[dependencies]
anyhow = "=1.0.104"
spin-sdk = "=3.1.1"
