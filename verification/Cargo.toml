[package]
name = "piedra_papel_tijera"
version = "0.1.0"
edition = "2021"
publish = false

[dependencies]
parity-scale-codec = "*"
sp-runtime = "*"
rand = "*"
