[package]
name = "omk"
version = "0.1.0"
edition = "2021"
publish = false

[dependencies]
anyhow = "1"
ciborium = "0.2"
coset = "0.3"
hex = "0.4"
log = "0.4"
ring = "0.17"
