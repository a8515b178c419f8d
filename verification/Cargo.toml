[package]
name = "solana_zk_verifier"
version = "0.1.0"
edition = "2021"
publish = false

[dependencies]
pinocchio = "=0.8.4"
solana-program = "=1.18.26"
