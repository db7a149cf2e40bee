[package]
name = "transferable_ecash"
version = "0.1.0"
edition = "2021"
publish = false

[dependencies]
ark-bls12-381 = "=0.4.0"
ark-ec = "=0.4.2"
ark-ff = "=0.4.2"
ark-std = "=0.4.0"

[dev-dependencies]
rand = "=0.8.8"
