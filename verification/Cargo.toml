[package]
name = "bearssl_build"
version = "0.1.0"
edition = "2021"
publish = false

[dependencies]
bindgen = "0.66"
cc = "1"
glob = "0.3"
