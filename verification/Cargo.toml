[package]
name = "x11_clipboard"
version = "0.1.0"
edition = "2021"
publish = false

[dependencies]
x11rb = { version = "*", features = ["xfixes"] }
libc = "*"
