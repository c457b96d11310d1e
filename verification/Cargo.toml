[package]
name = "chip8_bridge"
version = "0.1.0"
edition = "2021"
publish = false

[dependencies]
chip8 = "*"
js-sys = "*"
wasm-bindgen = "*"
web-sys = { version = "*", features = ["Window", "Document", "Element", "HtmlCanvasElement", "CanvasRenderingContext2d", "KeyboardEvent"] }
