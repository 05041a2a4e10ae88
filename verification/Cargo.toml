[package]
name = "bulletproof"
version = "0.1.0"
edition = "2021"
publish = false

[dependencies]
bulletproofs = "5"
curve25519-dalek = "4"
getrandom = "0.3"
merlin = "3"
