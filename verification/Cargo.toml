[package]
name = "wasm_harness"
version = "0.1.0"
edition = "2021"
publish = false

[dependencies]
anyhow = "=1.0.104"
wasmtime = "=46.0.3"
wasmtime-wasi = "=46.0.3"
