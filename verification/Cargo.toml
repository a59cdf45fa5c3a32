[package]
name = "alkahest_py"
version = "0.1.0"
edition = "2021"
publish = false

[dependencies]
pyo3 = "*"
pyo3-async-runtimes = { version = "*", features = ["tokio-runtime"] }
tokio = { version = "*", features = ["rt-multi-thread", "time", "macros", "sync"] }
