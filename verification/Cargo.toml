[package]
name = "add_metrics_tag"
version = "0.1.0"
edition = "2021"
publish = false

[dependencies]
base64 = "*"
log = "*"
proxy-wasm = "*"
