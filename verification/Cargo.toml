[package]
name = "tutorial-window"
version = "0.1.0"
edition = "2021"
publish = false

[dependencies]
wgpu = "23"
winit = "0.30"
pollster = "0.3"
log = "0.4"
console_error_panic_hook = "0.1"
console_log = "1"
wasm-bindgen = "0.2"
web-sys = { version = "0.3", features = ["Document", "Window", "Element"] }
