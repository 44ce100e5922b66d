[package]
name = "egraph_wasm"
version = "0.1.0"
edition = "2021"
publish = false

[dependencies]
egraph-serialize = "*"
serde = { version = "*", features = ["derive"] }
serde_json = "*"
serde-wasm-bindgen = "*"
wasm-bindgen = "*"
