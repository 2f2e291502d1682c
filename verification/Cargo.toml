[package]
name = "slyh"
version = "0.1.0"
edition = "2021"
publish = false

[dependencies]
anyhow = "1"
clap = { version = "4", features = ["derive"] }
dirs = "7"
eframe = { version = "0.37", default-features = false, features = ["glow", "x11", "default_fonts"] }
egui = { version = "0.37", default-features = false, features = ["default_fonts"] }
egui_material_icons = "0.9"
egui-notify = "0.24"
rfd = "0.17"
rodio = "0.23"
rust-i18n = "4"
serde = { version = "1", features = ["derive"] }
sys-locale = "0.3"
toml = "0.9"
unicode-normalization = "0.1"
