[package]
name = "webgpu_demo"
version = "0.1.0"
edition = "2021"
publish = false

[dependencies]
wgpu = "=29.0.4"
bytemuck = { version = "=1.25.2", features = ["derive"] }
log = "=0.4.35"
env_logger = "=0.11.11"
pollster = "=1.0.1"
winit = "=0.30.13"
wasm-bindgen = "=0.2.130"
web-sys = { version = "=0.3.107", features = ["Window", "Document", "Element", "HtmlCanvasElement"] }
console_error_panic_hook = "=0.1.7"
console_log = "=1.1.0"
