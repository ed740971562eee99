[package]
name = "libretrans"
version = "0.1.0"
edition = "2021"
publish = false

[dependencies]
async-std = "*"
clap = "*"
colored = "*"
libretranslate = "*"
