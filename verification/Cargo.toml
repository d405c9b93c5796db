[package]
name = "hitsplit"
version = "0.1.0"
edition = "2021"
publish = false

[dependencies]
directories = "5"
egui = { version = "0.28", default-features = false }
egui_extras = { version = "0.28", default-features = false }
egui_file = "0.18"
global-hotkey = { version = "0.5", features = ["serde"] }
serde = { version = "1", features = ["derive"] }
serde_json = "1"
uuid = { version = "1", features = ["v4"] }
