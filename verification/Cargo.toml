[package]
name = "ag_grid_rs"
version = "0.1.0"
edition = "2021"
publish = false

[dependencies]
js-sys = "0.3"
serde = { version = "1", features = ["derive"] }
serde-wasm-bindgen = "*"
serde_with = "*"
wasm-bindgen = "0.2"
web-sys = { version = "0.3", features = ["HtmlElement"] }

[dev-dependencies]
serde_json = "1"
