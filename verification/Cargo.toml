[package]
name = "wmdraw"
version = "0.1.0"
edition = "2021"
publish = false

[dependencies]
anyhow = "1"
xcb = "*"
cairo-rs = { version = "*", features = ["xcb"] }
cairo-sys-rs = { version = "*", features = ["xcb"] }
pango = "*"
pangocairo = "*"
