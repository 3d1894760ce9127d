[package]
name = "disk_panel"
version = "0.1.0"
edition = "2021"
publish = false

[dependencies]
byte-unit = "4"
tui = { version = "0.19", default-features = false }
