[package]
name = "kingshot"
version = "0.1.0"
edition = "2021"
publish = false

[dependencies]
bevy_time = "=0.16.1"
bevy_window = "=0.16.1"
serde = { version = "1", features = ["derive"] }
serde-wasm-bindgen = "0.6"
wasm-bindgen = "0.2"
web-sys = { version = "0.3", features = ["OffscreenCanvas"] }
tracing = "0.1"
tracing-subscriber = { version = "0.3", features = ["env-filter", "fmt"] }
tracing-wasm = "0.2"
console_error_panic_hook = "0.1"
raw-window-handle = "0.6"
matchbox_socket = { version = "=0.12.0", default-features = false }
