[package]
name = "av1_video"
version = "0.1.0"
edition = "2021"
publish = false

[dependencies]
yuv = "*"
crossbeam-channel = "*"
dav1d = "*"
