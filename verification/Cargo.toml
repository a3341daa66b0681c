[package]
name = "efsec"
version = "0.1.0"
edition = "2021"
publish = false

[dependencies]
vodozemac = "*"
serde_json = "*"
wasm-bindgen = "*"
console_error_panic_hook = "*"
