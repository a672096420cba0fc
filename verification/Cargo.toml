[package]
name = "neli_wifi"
version = "0.1.0"
edition = "2021"
publish = false

[dependencies]
neli = { version = "0.6", features = ["async"] }
