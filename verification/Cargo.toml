[package]
name = "gpu"
version = "0.1.0"
edition = "2021"
publish = false

[dependencies]
gl = "*"
glow = "*"
glutin = "*"
