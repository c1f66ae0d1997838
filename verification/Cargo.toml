[package]
name = "battery_icon"
version = "0.1.0"
edition = "2021"
publish = false

[dependencies]
image = "*"
imageproc = "*"
ab_glyph = "*"
