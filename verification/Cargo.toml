[package]
name = "kv_storage"
version = "0.1.0"
edition = "2021"

[dependencies]
wasm-cookies = "*"
log = "*"
thiserror = "*"
