[package]
name = "gradient_trainer"
version = "0.1.0"
edition = "2021"
publish = false

[dependencies]
nanograd = "*"
serde = { version = "*", features = ["derive"] }
serde_json = "*"
wasm-bindgen = "*"
js-sys = "*"
