[package]
name = "rfa_tracker"
version = "0.1.0"
edition = "2021"
publish = false

[dependencies]
chrono = "0.4"
eframe = { version = "0.20", default-features = false, features = ["default_fonts", "glow"] }
egui = "0.20"
egui_extras = { version = "0.20", features = ["image"] }
image = { version = "0.24", default-features = false, features = ["png"] }
rusqlite = { version = "0.28", features = ["bundled", "chrono", "serde_json"] }
serde = { version = "1", features = ["derive"] }
serde_json = "1"
