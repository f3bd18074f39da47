[package]
name = "opaque-ke"
version = "0.1.0"
edition = "2021"
publish = false

[dependencies]
curve25519-dalek = "=4.1.3"
digest = "=0.10.7"
generic-array = "=0.14.9"
hkdf = "=0.12.4"
hmac = "=0.12.1"
p256 = { version = "0.13", default-features = false, features = ["arithmetic", "hash2curve", "voprf"] }
rand = "=0.8.8"
sha2 = "=0.10.9"
subtle = "=2.6.1"
voprf = { version = "=0.4.1", features = ["danger"] }
zeroize = "=1.9.1"
