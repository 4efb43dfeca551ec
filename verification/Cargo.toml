[package]
name = "surfman"
version = "0.1.0"
edition = "2021"
publish = false

[dependencies]
euclid = "*"
raw-window-handle = "0.6"
x11 = { version = "*", features = ["xlib"] }
