[package]
name = "mado"
version = "0.1.0"
edition = "2021"
publish = false

[dependencies]
clap = { version = "4", features = ["derive"] }
dirs = "*"
eframe = { version = "*", default-features = false, features = ["glow", "x11", "default_fonts"] }
fontdb = "*"
serde = { version = "1", features = ["derive"] }
toml = "*"
