[package]
name = "state"
version = "0.1.0"
edition = "2021"
publish = false

[dependencies]
alloy = { version = "*", default-features = false }
alloy-primitives = "*"
dashmap = "*"
