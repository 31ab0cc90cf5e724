[package]
name = "baseview"
version = "0.1.0"
edition = "2021"
publish = false

[dependencies]
raw-window-handle = "=0.6.2"
x11rb = { version = "=0.14.0", features = ["cursor", "resource_manager"] }
