[package]
name = "video_levels"
version = "0.1.0"
edition = "2021"
publish = false

[dependencies]
yuv = "=0.1.10"
