[package]
name = "ritsu"
version = "0.1.0"
edition = "2021"
publish = false

[dependencies]
anyhow = "*"
argh = "*"
data-encoding = "*"
io-uring = "*"
libc = "*"
rand = "*"
rand_chacha = "*"
