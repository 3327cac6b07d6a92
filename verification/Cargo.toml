[package]
name = "rolldown-compression"
version = "2.3.6"
edition = "2021"
publish = false

[dependencies]
flate2 = { version = "=1.1.10", default-features = false, features = ["zlib-rs"] }
mbrotli = "=0.4.1"
mimalloc3 = "=0.1.59"
napi = "=3.16.1"
napi-derive = "=3.7.0"
rayon = "=1.12.0"
simd-brotli = "=10.0.1"
zstd = { version = "=0.13.4", default-features = false }
