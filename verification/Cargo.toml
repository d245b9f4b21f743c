[package]
name = "swb021bk_driver"
version = "0.1.0"
edition = "2021"
publish = false

[dependencies]
evdev = "0.13"
image = { version = "0.25", default-features = false, features = ["png"] }
gtk = "0.18"
tray-icon = "*"
