[package]
name = "crypto_ext"
version = "0.1.0"
edition = "2021"
publish = false

[dependencies]
aes-gcm = "=0.10.3"
openssl = "=0.10.81"
p256 = "=0.11.1"
sha256 = { version = "=1.6.0", default-features = false }
