[package]
name = "border"
version = "0.1.0"
edition = "2021"
publish = false

[dependencies]
crossbeam-channel = "*"
fastrand = "*"

[dev-dependencies]
crossbeam = "*"
