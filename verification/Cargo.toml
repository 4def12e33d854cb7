[package]
name = "netloop"
version = "0.1.0"
edition = "2021"
publish = false

[dependencies]
mio = "0.6"
slab = "0.4"
