[package]
name = "web_routes"
version = "0.1.0"
edition = "2021"
publish = false

[dependencies]
axum = { version = "0.8", default-features = false }
http = "1"
js-sys = "0.3"
serde = "1"
serde_qs = "0.15"
tracing = "0.1"
wasm-bindgen = "0.2"
web-sys = { version = "0.3", features = ["Event", "EventTarget", "History", "Location", "ScrollRestoration", "Url", "Window"] }
