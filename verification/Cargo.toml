[package]
name = "assembler"
version = "0.1.0"
edition = "2021"
publish = false

[dependencies]
serde = { version = "=1.0.219", features = ["derive"] }
serde-big-array = "=0.5.1"
tsify-next = "=0.5.6"
wasm-bindgen = "=0.2.100"
