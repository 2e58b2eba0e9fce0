[package]
name = "compute_shader"
version = "0.1.0"
edition = "2021"
publish = false

[dependencies]
core-foundation = "*"
euclid = "*"
gl = "*"
io-surface = "*"
libc = "0.2"
