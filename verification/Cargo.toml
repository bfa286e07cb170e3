[package]
name = "hls_warmer"
version = "0.1.0"
edition = "2021"
publish = false

[dependencies]
m3u8-rs = "*"
fastly = "*"
