[package]
name = "labelo"
version = "0.1.0"
edition = "2021"
publish = false

[dependencies]
clap = { version = "=4.6.7", default-features = false, features = ["std", "derive", "help", "usage"] }
dirs = "=5.0.1"
eframe = { version = "=0.33.3", default-features = false, features = ["glow", "x11"] }
egui = { version = "=0.33.3", default-features = false }
egui_dialogs = { version = "=0.3.8", default-features = false }
egui_extras = { version = "=0.33.3", default-features = false, features = ["image"] }
image = { version = "=0.25.10", default-features = false, features = ["jpeg", "png"] }
mini-moka = "=0.10.3"
parry2d = "=0.17.6"
serde = { version = "1", features = ["derive"] }
serde_json = "1"
toml = "=0.8.23"
