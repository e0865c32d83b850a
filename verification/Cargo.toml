[package]
name = "ctv_vault"
version = "0.1.0"
edition = "2021"
publish = false

[dependencies]
bitcoin = { version = "0.32", features = ["rand-std"] }
bitcoincore-rpc = "0.19"
rand = "0.8"
anyhow = "1"
