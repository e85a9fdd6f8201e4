[package]
name = "hash"
version = "0.1.0"
edition = "2021"
publish = false

[dev-dependencies]
rand_core = { version = "0.6", features = ["getrandom"] }
