[package]
name = "media_viewer"
version = "0.1.0"
edition = "2021"
publish = false

[dependencies]
eframe = { version = "0.24", default-features = false, features = ["default_fonts", "glow"] }
egui_extras = { version = "0.24", features = ["image"] }
image = { version = "0.24", default-features = false, features = ["png", "jpeg", "bmp", "tiff", "gif", "ico"] }
