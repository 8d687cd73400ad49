[package]
name = "hmac_sha512"
version = "0.1.0"
edition = "2021"
publish = false

[dependencies]
orion = "*"
subtle = "*"
clear_on_drop = "*"
