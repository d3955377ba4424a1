[package]
name = "anomaly_grid_py"
version = "0.1.0"
edition = "2021"
publish = false

[dependencies]
anomaly-grid = "*"
pyo3 = "*"
numpy = "*"
