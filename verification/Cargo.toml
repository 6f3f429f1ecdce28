[package]
name = "zk_verifier"
version = "0.1.0"
edition = "2021"
publish = false

[dependencies]
soroban-sdk = { version = "*", features = ["testutils"] }

[dev-dependencies]
sha3 = "*"
