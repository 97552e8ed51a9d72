[package]
name = "honest_guessing_game"
version = "0.1.0"
edition = "2021"
publish = false

[dependencies]
ansi_term = "0.12"
merlin = "3"
rand = "0.8"
rand_core = { version = "0.6", features = ["getrandom"] }
schnorrkel = "0.11"
