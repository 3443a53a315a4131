[package]
name = "pallet-nft"
version = "0.1.0"
edition = "2021"
publish = false

[dependencies]
frame-support = "*"
frame-system = "*"
scale-info = { version = "*", features = ["derive"] }
parity-scale-codec = { version = "*", features = ["derive"] }
