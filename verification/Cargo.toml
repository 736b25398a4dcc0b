[package]
name = "iban_validation_rs"
version = "0.1.29"
edition = "2021"
publish = false

[dependencies]
pyo3 = "0.25"
wasm-bindgen = "0.2"
