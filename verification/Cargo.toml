[package]
name = "paseo_store"
version = "0.1.0"
edition = "2021"
publish = false

[dependencies]
base64 = "*"
