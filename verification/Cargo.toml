[package]
name = "engiffen"
version = "0.1.0"
edition = "2021"
publish = false

[dependencies]
color_quant = "*"
gif = "*"
image = "*"
