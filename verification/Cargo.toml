[package]
name = "complex_formula"
version = "0.1.0"
edition = "2021"
publish = false

[dependencies]
wasm-bindgen = "*"
js-sys = "*"
web-sys = { version = "*", features = ["console", "WebGl2RenderingContext", "WebGlProgram", "WebGlShader", "WebGlUniformLocation", "WebGlBuffer", "WebGlVertexArrayObject"] }
