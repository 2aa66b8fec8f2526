[package]
name = "advance_wgpu"
version = "0.1.0"
edition = "2021"
publish = false

[dependencies]
nannou = { version = "=0.18.1", features = ["spirv"] }
rand_xorshift = "=0.3.0"
