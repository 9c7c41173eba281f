[package]
name = "polars_core"
version = "0.1.0"
edition = "2021"
publish = false

[dependencies]
ahash = "0.7"
arrow2 = { version = "*", default-features = false }
napi = { version = "2", default-features = false, features = ["napi6"] }
pyo3 = "0.18"
rayon = "1"
serde = { version = "1", features = ["derive"] }
