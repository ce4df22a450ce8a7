[package]
name = "yomama"
version = "0.1.0"
edition = "2021"
publish = false

[dependencies]
rand = "0.9"
image = { version = "0.25", default-features = false, features = ["gif", "jpeg", "png", "webp"] }
mp3lame-encoder = "0.2"
rodio = "*"
cpal = "*"
polyprompt = "*"
color-eyre = "0.6"
windows = { version = "*", features = ["Win32_Foundation", "Win32_Graphics_Gdi", "Win32_System_LibraryLoader", "Win32_UI_WindowsAndMessaging"] }
