[package]
name = "shape_editor"
version = "0.1.0"
edition = "2021"
publish = false

[dependencies]
serde_json = "1"
yew = "0.19"
wasm-bindgen = "0.2"
gloo-events = "0.1"
log = "0.4"
wasm-logger = "0.2"
web-sys = { version = "0.3", features = ["CanvasRenderingContext2d", "Document", "Element", "Event", "EventTarget", "File", "FileList", "FileReader", "HtmlCanvasElement", "HtmlElement", "HtmlInputElement", "InputEvent", "MouseEvent", "Window"] }
