[package]
name = "math_session"
version = "0.1.0"
edition = "2021"
publish = false

[dependencies]
mathcat = { version = "=0.7.7", features = ["include-zip"] }
yew = "=0.18.0"
wasm-bindgen = "=0.2.129"
log = "=0.4.34"

[dev-dependencies]
regex = "=1.13.1"
