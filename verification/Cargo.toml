[package]
name = "mithras"
version = "0.1.0"
edition = "2021"
publish = false

[dependencies]
bech32 = "0.11"
crossbeam-channel = "0.5"
curve25519-dalek = "4"
ed25519-dalek = { version = "2", features = ["hazmat"] }
getrandom = "0.3"
hkdf = "0.12"
hmac = "0.12"
hpke-rs = "*"
hpke-rs-libcrux = "*"
sha2 = "0.10"
x25519-dalek = { version = "2", features = ["static_secrets"] }
