[package]
name = "carbon_footprint_calculator"
version = "0.1.0"
edition = "2021"
publish = false

[dependencies]
const_soft_float = "=0.1.4"
wasm-bindgen = "=0.2.129"
serde = { version = "=1.0.229", features = ["derive"] }
serde-wasm-bindgen = "=0.6.5"
console_error_panic_hook = "=0.1.7"
