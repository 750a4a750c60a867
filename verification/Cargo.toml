[package]
name = "chain-impl-mockchain"
version = "0.1.0"
edition = "2021"
publish = false

[dev-dependencies]
cryptoxide = "=0.6.7"
