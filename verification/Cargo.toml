[package]
name = "mxfuse"
version = "0.1.0"
edition = "2021"
publish = false

[dependencies]
napi = { version = "2", features = ["async", "napi4"] }
napi-derive = "2"
pyo3 = "0.23"
