[package]
name = "flot"
version = "0.1.0"
edition = "2021"
publish = false

[dependencies]
json = "*"
typed-arena = "*"
