[package]
name = "embedded_tls"
version = "0.1.0"
edition = "2021"
publish = false

[dependencies]
digest = "=0.10.7"
sha2 = "=0.10.9"
hmac = "0.12"
rand_core = "=0.6.4"
