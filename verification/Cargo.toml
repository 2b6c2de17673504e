[package]
name = "spyrrow"
version = "0.1.0"
edition = "2021"
publish = false

[dependencies]
jagua-rs = { version = "=0.8.3", features = ["spp"] }
num_cpus = "=1.17.0"
pyo3 = { version = "=0.27.2", features = ["extension-module", "abi3-py310"] }
rand = "=0.10.3"
serde = { version = "=1.0.229", features = ["derive"] }
serde_json = "=1.0.154"
