[package]
name = "vaults"
version = "0.1.0"
edition = "2021"
publish = false

[dependencies]
pinocchio = "=0.8.4"
pinocchio-system = "0.2"
pinocchio-secp256r1-instruction = "=0.1.2"
anchor-lang = "=0.31.2"
