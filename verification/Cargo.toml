[package]
name = "ark-scale"
version = "0.1.0"
edition = "2021"
publish = false

[dependencies]
ark-bls12-381 = "*"
ark-ec = "*"
ark-ff = "*"
ark-serialize = "*"
ark-std = "*"
ark-ed25519 = "*"
parity-scale-codec = "*"
