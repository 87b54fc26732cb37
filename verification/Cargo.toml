[package]
name = "pixel_buffer"
version = "0.1.0"
edition = "2021"
publish = false

[dependencies]
libc = "0.2"
wayland-client = "0.31"
