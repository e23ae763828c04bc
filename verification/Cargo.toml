[package]
name = "wasm_bridge"
version = "0.1.0"
edition = "2021"
rust-version = "1.95"
publish = false

[dependencies]
anyhow = "=1.0.104"
oci-spec = "=0.10.0"
wasmtime = "=46.0.3"
wasmtime-wasi = "=46.0.3"
libcontainer = { version = "=0.7.0", default-features = false }

[dev-dependencies]
cap-std = "=3.4.6"
