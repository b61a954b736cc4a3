[package]
name = "koatl_core"
version = "0.1.0"
edition = "2021"
publish = false

[dependencies]
chumsky = "0.10"
pyo3 = "0.25"
