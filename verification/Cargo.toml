[package]
name = "sqlcipher_provider"
version = "0.1.0"
edition = "2021"
publish = false

[dependencies]
aes = "0.8"
cbc = { version = "0.1", features = ["block-padding"] }
hmac = "0.12"
pbkdf2 = { version = "0.12", features = ["hmac"] }
sha2 = "0.10"
rand_core = { version = "0.6", features = ["getrandom"] }
