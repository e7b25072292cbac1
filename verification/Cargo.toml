[package]
name = "overflow_safe"
version = "0.1.0"
edition = "2021"
publish = false

[dependencies]
arrow = { version = "55", default-features = false }
