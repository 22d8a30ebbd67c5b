[package]
name = "aida"
version = "0.1.0"
edition = "2021"
publish = false

[dependencies]
chrono = "*"
toml = "*"
serde = { version = "*", features = ["derive"] }
ipc-channel = "*"
tracing = "*"
tracing-subscriber = { version = "*", features = ["env-filter"] }
eframe = { version = "*", default-features = false, features = ["default_fonts", "glow", "x11", "wayland"] }
