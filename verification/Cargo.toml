[package]
name = "localtxsubmission"
version = "0.1.0"
edition = "2021"
publish = false

[dependencies]
pallas-codec = "*"
pallas-crypto = "*"
pallas-primitives = "*"

[dev-dependencies]
hex = "0.4"
