[package]
name = "cofactor"
version = "0.1.0"
edition = "2021"
publish = false

[dev-dependencies]
ark-bls12-381 = "0.4"
ark-ec = "0.4"
ark-ff = "0.4"
ark-std = "0.4"
rand_xorshift = "0.3"
