[package]
name = "es256k_procs"
version = "0.1.0"
edition = "2021"
publish = false

[dependencies]
iota_stronghold = "=2.1.0"
stronghold_engine = "=2.0.1"
stronghold-utils = "=1.0.0"
iota-crypto = { version = "=0.23.2", default-features = false, features = ["secp256k1", "random"] }
serde = { version = "=1.0.229", features = ["derive"] }
zeroize = "=1.9.1"
