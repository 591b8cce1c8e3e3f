[package]
name = "ecdsa"
version = "0.1.0"
edition = "2021"
publish = false

[dependencies]
halo2curves = "*"
rand_core = { version = "0.6", features = ["getrandom"] }
