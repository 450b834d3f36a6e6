[package]
name = "imposclib"
version = "0.1.0"
edition = "2021"
publish = false

[dependencies]
float_eq = "*"
log = "*"
