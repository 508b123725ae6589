[package]
name = "phonenumbers"
version = "0.1.0"
edition = "2021"
publish = false

[dependencies]
phonenumber = "*"
pyo3 = "*"
