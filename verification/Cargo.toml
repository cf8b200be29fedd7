[package]
name = "password_batch"
version = "0.1.0"
edition = "2021"
publish = false

[dependencies]
argon2 = "0.5"
colored = "2"
passwords = "3"
rand_core = { version = "0.6", features = ["getrandom"] }
rayon = "1"
zeroize = "1"
