[package]
name = "nix_services"
version = "0.1.0"
edition = "2021"
publish = false

[dependencies]
rnix = "*"
pyo3 = "*"
