[package]
name = "headlines"
version = "0.1.0"
edition = "2021"
publish = false

[dependencies]
eframe = "=0.16.0"
egui = { version = "=0.16.1", default-features = false, features = ["default_fonts"] }
