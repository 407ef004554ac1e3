[package]
name = "lcd_display"
version = "0.1.0"
edition = "2021"
publish = false

[dependencies]
egui = "0.22"
eframe = { version = "0.22", default-features = false, features = ["glow"] }
