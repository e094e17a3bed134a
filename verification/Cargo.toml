[package]
name = "desk_imager"
version = "0.1.0"
edition = "2021"
publish = false

[dependencies]
base64 = "=0.23.1"
directories = "=6.0.0"
eframe = { version = "=0.37.0", default-features = false, features = ["glow", "persistence", "x11", "default_fonts"] }
egui = "=0.37.0"
egui_animation = "=0.14.0"
egui_extras = "=0.37.0"
egui_flex = "=0.9.0"
egui_form = { version = "=0.11.0", features = ["validator_garde"] }
egui_infinite_scroll = "=0.13.0"
egui_material_icons = "=0.9.0"
env_logger = { version = "=0.11.11", default-features = false }
futures = "=0.3.34"
garde = { version = "=0.23.0", features = ["derive", "url"] }
image = { version = "=0.25.10", default-features = false, features = ["png", "jpeg"] }
ollama-rs = { version = "=0.3.6", default-features = false }
open = "=5.4.5"
reqwest = { version = "=0.13.5", default-features = false, features = ["json"] }
rfd = { version = "=0.17.2", default-features = false, features = ["xdg-portal"] }
rust_search_fork = "=2.1.3"
schemars = "=1.2.3"
serde = { version = "1", features = ["derive"] }
serde_json = "1"
tokio = { version = "1", features = ["rt", "rt-multi-thread", "macros", "sync", "time"] }
