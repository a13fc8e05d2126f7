[package]
name = "pinnacle"
version = "0.1.0"
edition = "2021"
publish = false

[dependencies]
rand = "=0.8.8"
smithay = { version = "=0.7.0", default-features = false, features = ["desktop", "wayland_frontend"] }
tonic = "=0.14.6"
xkbcommon = "=0.9.0"
xkeysym = "=0.2.1"
