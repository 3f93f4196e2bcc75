[package]
name = "nft_linkdrop"
version = "0.1.0"
edition = "2021"
publish = false

[dependencies]
serde_json = "*"
bs58 = "*"
