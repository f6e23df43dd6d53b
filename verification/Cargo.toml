[package]
name = "flaretro"
version = "0.1.0"
edition = "2021"
publish = false

[dependencies]
rust-libretro-sys = "*"
libc = "0.2"
gl = "*"
const_format = "*"
