[package]
name = "noise_sv2"
version = "0.1.0"
edition = "2021"
publish = false

[dependencies]
secp256k1 = { version = "=0.27.0", features = ["rand-std", "bitcoin-hashes-std"] }
aes-gcm = { version = "=0.10.3" }
chacha20poly1305 = { version = "=0.10.1" }
