[package]
name = "mini_kernel"
version = "0.1.0"
edition = "2021"
publish = false

[dependencies]
bit_field = "0.10"
lazy_static = "1.4"
