[package]
name = "co2_panel"
version = "0.1.0"
edition = "2021"
publish = false

[dependencies]
serde = { version = "1", features = ["derive"] }
serde_json = "1"
chrono = "0.4"
eframe = { version = "0.29", default-features = false, features = ["default_fonts", "glow", "x11"] }
