[package]
name = "action_validator"
version = "0.5.1"
edition = "2021"
publish = false

[dependencies]
clap = { version = "4", features = ["derive"] }
glob = "0.3"
serde = { version = "1", features = ["derive"] }
serde_json = "1"
serde_yaml = "*"
serde-wasm-bindgen = "*"
valico = "*"
wasm-bindgen = "0.2"
