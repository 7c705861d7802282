[package]
name = "wine_fermentation"
version = "0.1.0"
edition = "2021"
publish = false

[dependencies]
csv = "1"
eframe = { version = "0.31", default-features = false, features = ["default_fonts", "glow", "x11"] }
rand = "0.9"
serde = { version = "1", features = ["derive"] }
