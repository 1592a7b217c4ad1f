[package]
name = "xenomorph"
version = "0.1.0"
edition = "2021"
publish = false

[dependencies]
ar = "*"
tar = "*"
flate2 = "*"
bzip2 = "*"
liblzma = "*"
base64 = "*"
snailquote = "*"
