[package]
name = "nano_core"
version = "0.1.0"
edition = "2021"
publish = false

[dependencies]
x86_64 = { version = "*", default-features = false, features = ["instructions"] }
