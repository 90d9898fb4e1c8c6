[package]
name = "fast_floats"
version = "0.2.0"
edition = "2021"
publish = false

[dependencies]
num-traits = "0.2"
