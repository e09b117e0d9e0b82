[package]
name = "simuforge"
version = "0.1.0"
edition = "2021"
publish = false

[dependencies]
clap = { version = "4", features = ["derive"] }
console_error_panic_hook = "0.1"
nalgebra = "0.33"
rapier3d = "0.22"
serde = { version = "1", features = ["derive"] }
serde-wasm-bindgen = "0.6"
serde_json = "1"
serde_yaml = "0.9"
thiserror = "1"
wasm-bindgen = "0.2"
