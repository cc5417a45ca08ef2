[package]
name = "ya_runtime_wasi"
version = "0.3.0"
edition = "2021"
publish = false

[dependencies]
anyhow = "=1.0.104"
libsecp256k1 = "=0.7.2"
rand = "=0.8.8"
serde = { version = "=1.0.229", features = ["derive"] }
serde_json = "=1.0.151"
sha2 = "=0.9.9"
tiny-keccak = { version = "=2.0.2", features = ["keccak"] }
uuid = { version = "=1.27.0", features = ["v4"] }
wasmtime = "=36.0.17"
wasmtime-wasi = "=36.0.17"
zip = "=8.6.0"
