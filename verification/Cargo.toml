[package]
name = "blas_dispatch"
version = "0.1.0"
edition = "2021"
publish = false

[dependencies]
mdarray = "*"
cblas-sys = "*"
num-complex = "*"
num-traits = "*"
