[package]
name = "udp_loop"
version = "0.1.0"
edition = "2021"
publish = false

[dependencies]
crossbeam-queue = "0.2"
pyo3 = { version = "0.20", features = ["extension-module", "abi3-py37"] }
