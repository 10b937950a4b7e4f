[package]
name = "kbd_backlight"
version = "0.1.0"
edition = "2021"
publish = false

[dependencies]
async-std = { version = "1", features = ["attributes"] }
evdev = "0.12"
futures-util = "0.3"
zbus = "3"
