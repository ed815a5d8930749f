[package]
name = "isinstance_validator"
version = "0.1.0"
edition = "2021"
publish = false

[dependencies]
pyo3 = { version = "0.21", default-features = false, features = ["auto-initialize"] }
