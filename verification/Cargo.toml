[package]
name = "epomo"
version = "0.1.0"
edition = "2021"
publish = false

[dependencies]
chrono = { version = "0.4", default-features = false, features = ["now"] }
eframe = { version = "0.21", default-features = false, features = ["default_fonts", "glow", "persistence"] }
egui = "0.21"
serde = { version = "1", features = ["derive"] }
tracing-subscriber = "0.3"
