[package]
name = "expr_kernels"
version = "0.1.0"
edition = "2021"

[dependencies]
fastmurmur3 = "*"
polars = "*"
pyo3-polars = { version = "*", features = ["derive"] }
serde = { version = "1", features = ["derive"] }
