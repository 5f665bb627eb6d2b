[package]
name = "pallas_applying"
version = "0.1.0"
edition = "2021"
publish = false

[dependencies]
pallas-codec = "*"
pallas-primitives = "*"
pallas-traverse = "*"
pallas-crypto = "*"
