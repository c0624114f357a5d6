[package]
name = "bhp_commitment"
version = "0.1.0"
edition = "2021"
publish = false

[dependencies]
itertools = "*"
snarkvm-curves = "*"
snarkvm-fields = "*"
snarkvm-utilities = "*"
