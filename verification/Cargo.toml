[package]
name = "pdf_check"
version = "0.1.0"
edition = "2021"
publish = false

[dependencies]
pdf = "*"
reqwest = { version = "*", default-features = false, features = ["blocking"] }
pyo3 = "*"
