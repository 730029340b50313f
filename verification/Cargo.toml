[package]
name = "kakaotalk_adblock"
version = "0.1.0"
edition = "2021"
publish = false

[dependencies]
chrono = "0.4"
log = "0.4"
simple_logger = "*"
winapi = { version = "0.3", features = ["winuser", "windef", "minwindef"] }
native-windows-gui = "*"
native-windows-derive = "*"
registry = "*"
utfx = "*"
