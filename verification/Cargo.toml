[package]
name = "cuda_error"
version = "0.1.0"
edition = "2021"
publish = false

[dependencies]
cuda-sys = "0.2"
