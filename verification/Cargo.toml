[package]
name = "hal_bridge"
version = "0.1.0"
edition = "2021"
publish = false

[dependencies]
tokio = { version = "1", default-features = false, features = ["sync", "rt", "macros"] }
pdl-runtime = "0.2"
cxx = "1"
lazy_static = "1"
log = "0.4"
