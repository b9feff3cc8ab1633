[package]
name = "yinyang"
version = "0.1.0"
edition = "2021"
publish = false

[dependencies]
dirs = "*"
trayicon = "*"
winapi = { version = "0.3", features = ["winuser"] }
winreg = "*"
