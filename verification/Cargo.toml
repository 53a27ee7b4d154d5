[package]
name = "wai_bindgen"
version = "0.1.0"
edition = "2021"
publish = false

[dependencies]
anyhow = "1"
heck = "0.3"
structopt = "0.3"
wasm-encoder = "*"
