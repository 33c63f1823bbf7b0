[package]
name = "drmem_core"
version = "0.1.0"
edition = "2021"
publish = false

[dependencies]
drmem-api = "*"
tokio = { version = "*", features = ["sync", "rt", "rt-multi-thread"] }
