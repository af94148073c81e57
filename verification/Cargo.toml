[package]
name = "vips_gui"
version = "0.1.0"
edition = "2021"
publish = false

[dependencies]
eframe = { version = "=0.36.2", default-features = false, features = ["default_fonts", "glow", "x11", "persistence"] }
egui = "=0.36.2"
image = { version = "=0.25.10", default-features = false, features = ["png"] }
open = "=5.4.5"
rfd = "=0.17.2"
serde = { version = "=1.0.229", features = ["derive"] }
thiserror = "=2.0.21"
walkdir = "=2.5.0"
which = "=8.0.6"
