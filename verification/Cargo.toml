[package]
name = "obj_viewer"
version = "0.1.0"
edition = "2021"
publish = false

[dependencies]
anyhow = "1"
bytemuck = { version = "1", features = ["derive"] }
cgmath = "0.18"
gloo = "0.8"
image = "0.24"
once_cell = "1"
tobj = { version = "3", features = ["async"] }
wasm-bindgen-futures = "0.4"
web-sys = { version = "0.3", features = ["HtmlCanvasElement", "WebGl2RenderingContext"] }
wgpu = "0.14"
yew = "0.19"
yew-canvas = "*"
