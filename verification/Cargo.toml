[package]
name = "mutatis"
version = "0.1.0"
edition = "2021"
publish = false

[dependencies]
rand = { version = "0.8.5", default-features = false, features = ["small_rng"] }
