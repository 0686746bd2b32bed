[package]
name = "fill_box_control"
version = "0.1.0"
edition = "2021"
publish = false

[dependencies]
dioxus = { version = "0.6", default-features = false, features = ["macro", "html", "signals", "hooks", "launch"] }
reqwest = { version = "0.12", default-features = false }
serde = { version = "1", features = ["derive"] }
wasm-bindgen = "0.2"
wasm-bindgen-futures = "0.4"
js-sys = "0.3"
web-sys = { version = "0.3", features = ["EventSource", "MessageEvent", "Event"] }
