[package]
name = "photon"
version = "0.1.0"
edition = "2021"
publish = false

[dependencies]
image = { version = "0.21", default-features = false }
