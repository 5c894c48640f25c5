[package]
name = "old_school_gfx_glutin_ext"
version = "0.1.0"
edition = "2021"
publish = false

[dependencies]
gfx_core = "=0.9.2"
gfx_device_gl = "=0.16.2"
glutin = "=0.30.10"
glutin-winit = "=0.3.0"
raw-window-handle = "=0.5.2"
winit = { version = "=0.28.7", default-features = false, features = ["x11", "wayland", "wayland-dlopen"] }
