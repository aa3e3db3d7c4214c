[package]
name = "canvas_control"
version = "0.1.0"
edition = "2021"
publish = false

[dependencies]
gloo-console = "0.2"
instant = { version = "0.1", features = ["now", "wasm-bindgen"] }
js-sys = "0.3"
wasm-bindgen = "0.2"
web-sys = { version = "0.3", features = ["Document", "Element", "HtmlCanvasElement", "HtmlElement", "HtmlImageElement", "MouseEvent", "Touch", "TouchEvent", "TouchList", "WebGlActiveInfo", "WebGlBuffer", "WebGlProgram", "WebGlRenderingContext", "WebGlShader", "WebGlTexture", "WebGlUniformLocation", "Window"] }
yew = { version = "0.20", features = ["csr"] }
yew-router = "0.17"
