[package]
name = "music_player"
version = "0.1.0"
edition = "2021"

[dependencies]
eframe = { version = "0.22", default-features = false, features = ["default_fonts", "glow"] }
