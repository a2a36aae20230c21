[package]
name = "screencast"
version = "0.1.0"
edition = "2021"
publish = false

[dependencies]
bincode = "1.3"
image = { version = "0.25", default-features = false, features = ["jpeg", "png"] }
png = "0.17"
repng = "0.2"
serde = { version = "1", features = ["derive"] }
eframe = { version = "0.29", default-features = false, features = ["glow", "default_fonts", "x11", "persistence"] }
egui_extras = { version = "0.29", default-features = false }
scrap = "0.5"
local-ip-address = "0.6"
tokio = { version = "1", features = ["rt-multi-thread", "net", "io-util", "macros"] }
