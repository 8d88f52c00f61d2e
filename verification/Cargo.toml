[package]
name = "window_manager"
version = "0.1.0"
edition = "2021"
publish = false

[dependencies]
winit = "0.28"
env_logger = "*"
log = "*"
cfg-if = "*"
wasm-bindgen = "*"
web-sys = { version = "*", features = ["Window", "Document", "Element", "Node"] }
console_log = "*"
console_error_panic_hook = "*"
