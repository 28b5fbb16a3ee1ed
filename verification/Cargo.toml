[package]
name = "t_hotp"
version = "0.1.0"
edition = "2021"
publish = false

[dependencies]
data-encoding = "*"
hmac-sha1 = "*"
js-sys = "*"
wasm-bindgen = "*"
