[package]
name = "ed25519-zebra"
version = "0.1.0"
edition = "2021"
publish = false

[dependencies]
curve25519-dalek = "=3.2.1"
sha2 = "0.10"
zeroize = "1"
serde = { version = "1", features = ["derive"] }
