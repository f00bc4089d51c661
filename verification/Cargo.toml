[package]
name = "envelope_crypto"
version = "0.1.0"
edition = "2021"
publish = false

[dependencies]
aes-gcm = "*"
argon2 = "*"
sha2 = "*"
x25519-dalek = { version = "*", features = ["static_secrets"] }
zeroize = "*"
serde = { version = "*", features = ["derive"] }
wasm-bindgen = "*"
serde-wasm-bindgen = "*"
