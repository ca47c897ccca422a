[package]
name = "echat"
version = "0.1.0"
edition = "2021"
publish = false

[dependencies]
ahash = "=0.8.12"
anyhow = "=1.0.104"
async-trait = "=0.1.92"
chrono = { version = "=0.4.45", default-features = false, features = ["std"] }
dirs = "=7.0.0"
eframe = { version = "0.31", default-features = false, features = ["default_fonts", "glow", "persistence", "x11"] }
egui = "0.31"
egui_extras = { version = "0.31", default-features = false, features = ["image"] }
grammers-client = { version = "0.7", default-features = false }
log = "=0.4.34"
parking_lot = "=0.12.5"
rand = "=0.9.5"
serde = { version = "=1.0.229", features = ["derive"] }
serde_json = "=1.0.154"
tokio = { version = "=1.54.1", features = ["rt-multi-thread", "sync"] }
