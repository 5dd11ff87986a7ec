[package]
name = "niri"
version = "0.1.0"
edition = "2021"
publish = false

[dependencies]
anyhow = "1"
atomic = "0.6"
calloop = "0.14"
glam = "*"
smithay = { version = "0.7.0", default-features = false, features = ["wayland_frontend", "renderer_gl"] }
