[package]
name = "txkv"
version = "0.1.0"
edition = "2021"
publish = false

[dependencies]
async-std = "1"
async-trait = "0.1"
console_error_panic_hook = "0.1"
console_log = "*"
futures = "0.3"
js-sys = "0.3"
log = "0.4"
wasm-bindgen = "0.2"
web-sys = { version = "0.3", features = ["DomException", "Event", "IdbDatabase", "IdbFactory", "IdbObjectStore", "IdbOpenDbRequest", "IdbRequest", "IdbTransaction", "IdbTransactionMode", "IdbVersionChangeEvent", "Window", "console"] }
wee_alloc = "0.4"
