[package]
name = "laser_solver"
version = "0.1.0"
edition = "2021"
publish = false

[dependencies]
eframe = { version = "0.32", default-features = false, features = ["glow", "default_fonts", "x11"] }
egui_plot = { version = "0.33", default-features = false }
