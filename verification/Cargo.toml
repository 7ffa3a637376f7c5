[package]
name = "songbird_py"
version = "0.1.0"
edition = "2021"
publish = false

[dependencies]
songbird = { version = "0.2", default-features = false, features = ["driver"] }
discortp = "0.4"
tokio = { version = "1", features = ["rt-multi-thread", "sync", "macros"] }
async-trait = "0.1"
log = "0.4"
pyo3 = "0.16"
pyo3-asyncio = { version = "0.16", features = ["tokio-runtime"] }
pyo3-log = "0.6"
