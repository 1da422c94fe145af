[package]
name = "breadx_keysyms"
version = "0.1.0"
edition = "2021"
publish = false

[dependencies]
breadx = { version = "=3.1.0", features = ["async"] }

[dev-dependencies]
xkeysym = "=0.2.1"
