[package]
name = "pqc_shim"
version = "0.1.0"
edition = "2021"
publish = false

[dependencies]
pqcrypto-dilithium = "*"
pqcrypto-kyber = "*"
pqcrypto-traits = "*"

[dev-dependencies]
hex = "*"
