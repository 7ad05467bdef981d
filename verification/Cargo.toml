[package]
name = "loop_blinn"
version = "0.1.0"
edition = "2021"
publish = false

[dependencies]
glow = "0.16"
glutin = { version = "0.32", default-features = false, features = ["egl", "glx", "x11"] }
glutin-winit = { version = "0.5", default-features = false, features = ["egl", "glx", "x11"] }
raw-window-handle = "0.6"
winit = { version = "0.30", default-features = false, features = ["rwh_06", "x11"] }
