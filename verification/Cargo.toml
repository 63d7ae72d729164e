[package]
name = "shadow_privacy"
version = "0.1.0"
edition = "2021"
publish = false

[dependencies]
solana-program = "=1.10.0"
ark-bn254 = "=0.4.0"
ark-groth16 = "=0.4.0"
ark-serialize = "=0.4.2"
borsh = "=0.9.3"
