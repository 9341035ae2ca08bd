[package]
name = "glutin_unix"
version = "0.1.0"
edition = "2021"
publish = false

[dependencies]
winit = "0.26"
glutin_egl_sys = "0.1"
glutin_glx_sys = "0.1"
