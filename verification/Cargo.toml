[package]
name = "native_roots"
version = "0.1.0"
edition = "2021"
publish = false

[dependencies]
rustls-native-certs = "*"
pyo3 = "*"

[dev-dependencies]
x509-parser = "*"
