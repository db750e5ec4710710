[package]
name = "clipvault"
version = "0.1.0"
edition = "2021"
publish = false

[dependencies]
chrono = "0.4"
copypasta = { version = "0.10", default-features = false, features = ["x11"] }
directories = "5"
egui = "0.28"
egui_extras = { version = "0.28", default-features = false, features = ["datepicker"] }
rusqlite = { version = "0.31", features = ["bundled"] }
serde = { version = "1", features = ["derive"] }
toml = "0.8"
