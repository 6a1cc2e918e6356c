[package]
name = "fontquant"
version = "0.1.0"
edition = "2021"
publish = false

[dependencies]
harfrust = "*"
itertools = "*"
kurbo = "*"
read-fonts = "*"
skrifa = "*"
unicode-normalization = "*"
unicode-properties = "*"
