[package]
name = "integration_params"
version = "0.1.0"
edition = "2021"
publish = false

[dependencies]
rapier3d = "0.4"
wasm-bindgen = "0.2"
