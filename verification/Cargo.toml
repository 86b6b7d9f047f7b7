[package]
name = "vinsert_backend"
version = "0.1.0"
edition = "2021"
publish = false

[dependencies]
pyo3 = { version = "0.22", features = ["auto-initialize"] }
