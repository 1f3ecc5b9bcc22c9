[package]
name = "simhost"
version = "0.1.0"
edition = "2021"
publish = false

[dependencies]
rand = { version = "0.8.5", default-features = false }
rand_xoshiro = "0.6.0"
libc = "0.2"
log = "0.4"
