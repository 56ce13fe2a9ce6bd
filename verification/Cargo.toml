[package]
name = "wallrus"
version = "0.1.0"
edition = "2021"
publish = false

[dependencies]
image = "*"
glow = "*"
dirs = "*"
libc = "*"
