[package]
name = "seelen_ui_core"
version = "0.1.0"
edition = "2021"
publish = false

[dependencies]
arc-swap = "*"
lazy_static = "*"
log = "*"
notify-debouncer-full = "*"
parking_lot = "*"
serde = { version = "*", features = ["derive"] }
serde_json = "*"
serde_yaml = "*"
