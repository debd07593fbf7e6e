[package]
name = "pao"
version = "0.1.0"
edition = "2021"
publish = false

[dependencies]
wgpu = "28"
raw-window-handle = "0.6"
