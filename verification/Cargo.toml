[package]
name = "pictor"
version = "0.1.0"
edition = "2021"
publish = false

[dependencies]
lcms2 = "*"
image = "0.24"
notify = "4"
winit = "0.28"
anyhow = "1"
msgbox = "*"
