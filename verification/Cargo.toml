[package]
name = "gfx_backend_vulkan"
version = "0.1.0"
edition = "2021"
publish = false

[dependencies]
ash = "*"
