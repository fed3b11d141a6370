[package]
name = "celestial_heroes"
version = "0.1.0"
edition = "2021"
publish = false

[dependencies]
multiversx-sc = "*"

[dev-dependencies]
multiversx-sc-scenario = "*"
