[package]
name = "webglee"
version = "0.1.0"
edition = "2021"
publish = false

[dependencies]
fontdue = "*"
golem = "*"
nalgebra = "*"
