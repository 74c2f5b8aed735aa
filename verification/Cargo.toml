[package]
name = "status_poll"
version = "0.1.0"
edition = "2021"
publish = false

[dependencies]
serde_json = "1"
chrono = "0.4"
rayon = "1"
ctrlc = "3"
eframe = { version = "*", default-features = false, features = ["glow", "default_fonts", "x11"] }
winapi = { version = "0.3", features = ["winuser"] }
