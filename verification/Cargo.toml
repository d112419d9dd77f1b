[package]
name = "microhttp"
version = "0.1.0"
edition = "2021"
publish = false

[dependencies]
heapless = "0.8"
embassy-net = { version = "*", features = ["tcp", "proto-ipv4", "medium-ethernet"] }
embassy-time = "*"
embedded-io-async = "*"
defmt = "*"
