[package]
name = "icesickle"
version = "0.1.0"
edition = "2021"
publish = false

[dependencies]
ed25519-dalek = "2"
zeroize = "1"
rand_core = "0.6"
anyhow = "1"
log = "0.4"
esp-idf-sys = "*"
esp-idf-hal = "*"
esp-idf-svc = "*"
