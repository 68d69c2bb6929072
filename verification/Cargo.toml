[package]
name = "bitcoin_vanity"
version = "0.1.0"
edition = "2021"
publish = false

[dependencies]
bitcoin = { version = "0.30", features = ["rand-std"] }
secp256k1 = { version = "0.27", features = ["rand-std"] }
chrono = "0.4"
rayon = "1"
num_cpus = "1"
env_logger = "0.10"
