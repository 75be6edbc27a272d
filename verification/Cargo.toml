[package]
name = "resource_loader"
version = "0.1.0"
edition = "2021"
publish = false

[dependencies]
futures-channel = "=0.3.34"
flate2 = "=1.1.10"
anyhow = "=1.0.104"
instant = "=0.1.13"
serde = { version = "=1.0.229", features = ["derive"] }
serde_json = "=1.0.154"
bincode = "=1.3.3"
tokio = { version = "=1.54.1", features = ["rt", "rt-multi-thread"] }
js-sys = "0.3"
wasm-bindgen = "0.2"
wasm-bindgen-futures = "0.4"
web-sys = { version = "0.3", features = ["Request", "RequestInit", "RequestMode", "Response", "Window"] }
