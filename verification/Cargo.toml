[package]
name = "ax88179_178a"
version = "0.1.0"
edition = "2021"
publish = false

[dependencies]
nudge = "*"
