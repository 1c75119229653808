[package]
name = "pq_session"
version = "0.1.0"
edition = "2021"
publish = false

[dependencies]
aws-lc-rs = "=1.18.2"
ml-kem = { version = "=0.3.3", features = ["getrandom"] }
rand = "=0.10.3"
argon2 = "=0.5.3"
base64 = "=0.23.1"
