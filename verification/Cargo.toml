[package]
name = "eggenv"
version = "0.1.0"
edition = "2021"
publish = false

[dependencies]
egg = "0.9"
rand = "0.8"
anyhow = "1"
pyo3 = "0.20"
