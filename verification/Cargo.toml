[package]
name = "pinocchio_multisig"
version = "0.1.0"
edition = "2021"
publish = false

[dependencies]
pinocchio = "0.9"
pinocchio-pubkey = "0.3"
pinocchio-system = "0.3"
shank = "0.4"
