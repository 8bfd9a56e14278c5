[package]
name = "worker-sandbox"
version = "0.1.0"
edition = "2021"
publish = false

[dependencies]
worker = { version = "*", features = ["http", "queue"] }
http = "1"
serde = { version = "1", features = ["derive"] }
serde_json = "1"
router-service = "*"
tower = "*"
futures-channel = "*"
wasm-bindgen-futures = "*"
wasm-bindgen = "*"
js-sys = "*"
