[package]
name = "clap_facade"
version = "0.1.0"
edition = "2021"
publish = false

[dependencies]
clap = { version = "=4.6.7", features = ["string"] }
wasm-bindgen = "=0.2.129"
