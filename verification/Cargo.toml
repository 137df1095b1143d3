[package]
name = "tonegen"
version = "0.1.0"
edition = "2021"
publish = false

[dependencies]
nalgebra = "*"
rand = { version = "0.9", features = ["small_rng"] }
