[package]
name = "rolling_sampler"
version = "0.1.0"
edition = "2021"
publish = false

[dependencies]
chrono = { version = "=0.4.45", default-features = false, features = ["now"] }
cpal = "=0.15.3"
dirs = "=5.0.1"
egui = "=0.28.1"
egui_plot = "=0.28.1"
egui-winit = { version = "=0.28.1", default-features = false, features = ["x11"] }
hound = "=3.5.1"
rfd = "=0.14.1"
rubato = { version = "=0.15.0", default-features = false }
