[package]
name = "pyo3_chrono"
version = "0.1.0"
edition = "2021"
publish = false

[dependencies]
chrono = { version = "0.4", default-features = false, features = ["serde"] }
pyo3 = "0.13"
serde = "1"
