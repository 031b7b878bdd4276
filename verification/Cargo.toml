[package]
name = "nimiq_validator"
version = "0.1.0"
edition = "2021"
publish = false

[dependencies]
blake2-rfc = "0.2"
parking_lot = "=0.12.5"
