[package]
name = "pygui"
version = "0.1.0"
edition = "2021"
publish = false

[dependencies]
piston_window = "=0.148.0"
pyo3 = { version = "=0.30.1", features = ["extension-module", "abi3-py39"] }
winit = "=0.30.13"
