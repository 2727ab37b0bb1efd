[package]
name = "cattleya_js"
version = "0.1.0"
edition = "2021"
publish = false

[dependencies]
console_error_panic_hook = "=0.1.7"
js-sys = "=0.3.106"
log = "=0.4.34"
wasm-bindgen = "=0.2.129"
wasm-bindgen-futures = "=0.4.79"
wasm-logger = "=0.2.0"
wee_alloc = "=0.4.5"
