[package]
name = "dawn_rs"
version = "0.1.0"
edition = "2021"
publish = false

[dependencies]
smallvec = "1"
parking_lot = "0.12"
raw-window-handle = "0.3"
