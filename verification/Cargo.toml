[package]
name = "spaceships"
version = "0.1.0"
edition = "2021"
publish = false

[dependencies]
rand = "=0.7.3"
serde = { version = "=1.0.229", features = ["derive"] }
serde_json = "=1.0.154"
piston = "=1.0.0"
piston2d-graphics = "=0.45.0"
piston2d-opengl_graphics = "=0.89.0"
pistoncore-glutin_window = "=0.73.2"
wasm-bindgen = "*"
js-sys = "*"
console_error_panic_hook = "*"
web-sys = { version = "*", features = ["CanvasRenderingContext2d", "HtmlCanvasElement", "Performance", "Window"] }
