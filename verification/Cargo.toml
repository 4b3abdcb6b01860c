[package]
name = "perfwindow"
version = "0.9.5"
edition = "2021"
publish = false

[dependencies]
semver = "1"
serde = { version = "1", features = ["derive"] }
serde_json = "1"
toml = "*"
thiserror = "*"
ureq = "2"
webbrowser = "*"
winreg = "*"
egui = "*"
eframe = { version = "*", default-features = false, features = ["glow", "default_fonts"] }
