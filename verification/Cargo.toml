[package]
name = "slopdev"
version = "0.1.0"
edition = "2021"
publish = false

[dependencies]
anyhow = "1"
directories = "5"
eframe = { version = "0.22", default-features = false, features = ["default_fonts", "glow"] }
reqwest = { version = "0.11", features = ["blocking"] }
zip = "0.6"
