[package]
name = "pallet-domains"
version = "0.1.0"
edition = "2021"
publish = false

[dependencies]
log = "*"
parking_lot = "*"
static_assertions = "*"
sp-core = "*"
sp-runtime = "*"

[dev-dependencies]
parity-scale-codec = "*"
