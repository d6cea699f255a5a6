[package]
name = "tray_icon"
version = "0.1.0"
edition = "2021"
publish = false

[dependencies]
arc-swap = "=1.9.3"
dpi = "=0.1.2"
ksni = { version = "=0.3.7", features = ["blocking"] }
