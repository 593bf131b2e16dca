[package]
name = "bracket_terminal"
version = "0.1.0"
edition = "2021"
publish = false

[dependencies]
instant = "0.1"
bracket-color = "0.8"
bracket-geometry = "0.8"
parking_lot = "0.12"
glow = "0.11"
wasm-bindgen = "0.2"
web-sys = { version = "0.3", features = ["Window", "Document", "Element", "HtmlElement", "HtmlCanvasElement", "HtmlAnchorElement", "CssStyleDeclaration", "Event", "EventTarget", "WebGl2RenderingContext", "console"] }
console_error_panic_hook = "0.1"
winit = "0.28"
