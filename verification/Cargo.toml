[package]
name = "javardry_spoiler"
version = "0.1.0"
edition = "2021"
publish = false

[dependencies]
md-5 = "0.9"
des = "0.7"
block-modes = "0.8"
