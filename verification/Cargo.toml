[package]
name = "rust_text_editor"
version = "0.1.0"
edition = "2021"
publish = false

[dependencies]
console_log = "0.2"
js-sys = "0.3"
log = "0.4"
wasm-bindgen = "0.2"
wasm-bindgen-futures = "0.4"
web-sys = { version = "0.3", features = ["CanvasRenderingContext2d", "Clipboard", "CssStyleDeclaration", "Element", "HtmlCanvasElement", "HtmlElement", "KeyboardEvent", "Navigator", "TextMetrics", "Window"] }
yew = { version = "0.16", features = ["web_sys"] }
