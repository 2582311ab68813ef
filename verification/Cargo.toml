[package]
name = "rers"
version = "0.1.0"
edition = "2021"
publish = false

[dependencies]
lru = "=0.12.5"
regex = "=1.13.1"
varnish = { version = "=0.8.0", features = ["ffi"] }
