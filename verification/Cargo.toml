[package]
name = "pallet-sponsored-tx"
version = "0.1.0"
edition = "2021"
publish = false

[dependencies]
polkadot-sdk = { version = "=2609.2.0", default-features = false, features = ["frame-support", "frame-system", "pallet-balances", "pallet-transaction-payment", "sp-runtime"] }
parity-scale-codec = { version = "=3.7.5", default-features = false, features = ["derive"] }
scale-info = { version = "=2.11.6", default-features = false, features = ["derive"] }
log = "=0.4.35"
