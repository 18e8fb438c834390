[package]
name = "distribution_market"
version = "0.1.0"
edition = "2021"
publish = false

[dependencies]
ethabi = { version = "18", default-features = false }
pallet-revive-uapi = "*"
polkavm-derive = "*"
