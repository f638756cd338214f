[package]
name = "wasmcloud-provider"
version = "0.1.0"
edition = "2021"
publish = false

[dependencies]
anyhow = "1"
async-trait = "0.1"
darling = "=0.13.4"
log = "0.4"
oci-distribution = "=0.5.0"
rmp = "=0.8.9"
tempfile = "3"
tokio = { version = "1", features = ["fs", "rt", "sync"] }
wascc-fs = { version = "=0.1.2", features = ["static_plugin"] }
wascc-host = "=0.14.0"
