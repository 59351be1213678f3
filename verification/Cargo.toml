[package]
name = "katana_core"
version = "0.1.0"
edition = "2021"
publish = false

[dependencies]
starknet_api = "=0.11.0"
sha3 = "0.10"
