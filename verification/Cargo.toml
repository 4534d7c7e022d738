[package]
name = "launch_decoder"
version = "0.1.0"
edition = "2021"
publish = false

[dependencies]
bs58 = "0.5"
js-sys = "0.3"
serde = { version = "1", features = ["derive"] }
serde-wasm-bindgen = "0.6"
wasm-bindgen = "0.2"

[dev-dependencies]
borsh = "1"
