[package]
name = "stat_blob"
version = "0.1.0"
edition = "2021"
publish = false

[dependencies]
rand = "*"
eframe = { version = "*", default-features = false, features = ["glow", "x11", "default_fonts"] }
egui = "*"
