[package]
name = "frontend"
version = "0.1.0"
edition = "2021"
publish = false

[dependencies]
console_error_panic_hook = "*"
gloo-net = "*"
tracing = "*"
tracing-wasm = "*"
wasm-bindgen-futures = "*"
yew = { version = "0.21", features = ["csr"] }
yew-router = "0.18"
