[package]
name = "onchain_surveys"
version = "0.1.0"
edition = "2021"
publish = false

[dependencies]
casper-contract = { version = "4", default-features = false }
casper-types = "4"
