[package]
name = "rustroarch"
version = "0.1.0"
edition = "2021"
publish = false

[dependencies]
clap = "2.34"
libc = "0.2"
libloading = "0.8"
libretro-sys = "0.1"
minifb = "*"
