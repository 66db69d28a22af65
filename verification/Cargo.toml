[package]
name = "class_reader"
version = "0.1.0"
edition = "2021"
publish = false

[dependencies]
cesu8 = "1"
serde = { version = "1", features = ["derive"] }
thiserror = "1"
wasm-bindgen = "0.2"
serde-wasm-bindgen = "0.6"
