[package]
name = "substrait_bridge"
version = "0.1.0"
edition = "2021"
publish = false

[dependencies]
datafusion-common = { version = "=55.2.0", default-features = false }
prost = "=0.14.4"
pyo3 = "=0.30.1"
tokio = { version = "=1.54.1", features = ["rt"] }
