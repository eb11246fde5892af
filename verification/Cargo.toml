[package]
name = "huff_tests"
version = "0.1.0"
edition = "2021"
publish = false

[dependencies]
alloy-primitives = "0.8"
revm = { version = "14", default-features = false, features = ["std"] }
huff_utils = "0.1.0"
