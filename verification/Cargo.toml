[package]
name = "nanodb"
version = "0.1.0"
edition = "2021"
publish = false

[dependencies]
fastcrypto = "=0.1.11"
secp256k1 = { version = "=0.33.1", features = ["recovery"] }
slip10_ed25519 = "=0.1.3"
bip32 = { version = "=0.6.0", features = ["alloc"] }
