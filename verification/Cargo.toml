[package]
name = "blueshift_escrow"
version = "0.1.0"
edition = "2021"
publish = false

[dependencies]
pinocchio = { version = "=0.11.2", features = ["cpi"] }
pinocchio-system = "=0.6.1"
pinocchio-token = "=0.6.0"
pinocchio-token-2022 = "=0.3.1"
pinocchio-associated-token-account = "=0.4.0"
solana-address = { version = "=2.9.0", features = ["curve25519"] }
