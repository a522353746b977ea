[package]
name = "crypto"
version = "0.1.0"
edition = "2021"
publish = false

[dependencies]
ed25519-dalek = "1"
libsecp256k1 = "0.7"
ring = "0.16"
openssl = "0.10"
sha2 = "0.10"
rand = "0.8"
signature = "1"
