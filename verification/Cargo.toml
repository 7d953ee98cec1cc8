[package]
name = "workflow_contract"
version = "1.0.0"
edition = "2021"
publish = false

[dependencies]
casper-types = "=6.1.0"
casper-contract = { version = "=5.1.1", default-features = false }
