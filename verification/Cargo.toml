[package]
name = "x264"
version = "0.1.0"
edition = "2021"
publish = false

[dependencies]
x264-sys = "*"
