[package]
name = "sigmatch"
version = "0.1.0"
edition = "2021"
publish = false

[dependencies]
levenshtein = "1.0"
smallvec = "1"
rustdoc-types = "0.4"
