[package]
name = "edge_login"
version = "0.1.0"
edition = "2021"
publish = false

[dependencies]
serde_json = "1"
worker = "*"
web-sys = { version = "*", features = ["Url", "UrlSearchParams"] }
gloo-net = "*"
wasm-bindgen-futures = "*"
