[package]
name = "kitara"
version = "0.1.0"
edition = "2021"
publish = false

[dependencies]
csv = "1"
enigo = "0.0.14"
midir = "*"
