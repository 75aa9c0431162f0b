[package]
name = "pro_flight"
version = "0.1.0"
edition = "2021"
publish = false

[dependencies]
integer-sqrt = "*"
sbus-parser = "*"
