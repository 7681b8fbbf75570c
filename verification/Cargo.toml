[package]
name = "yubihsm"
version = "0.1.0"
edition = "2021"
publish = false

[dependencies]
aes = "0.8"
cbc = { version = "0.1", features = ["alloc"] }
cmac = "0.7"
pbkdf2 = "0.12"
sha2 = "0.10"
subtle = "2"
rand_core = { version = "0.6", features = ["getrandom"] }
uuid = "1"
