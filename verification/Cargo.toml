[package]
name = "hsm_core"
version = "0.1.0"
edition = "2021"
publish = false

[dependencies]
aead = "0.5"
aes = "0.8"
aes-gcm = "0.10"
cbc = { version = "0.1", features = ["alloc", "block-padding"] }
chacha20poly1305 = "0.10"
embassy-sync = "0.5"
futures = "0.3"
zeroize = "1"
