[package]
name = "bg_maker"
version = "0.1.0"
edition = "2021"
publish = false

[dependencies]
iced = { version = "=0.14.0", default-features = false, features = ["canvas", "image", "advanced", "tokio", "tiny-skia", "x11"] }
iced_runtime = "=0.14.0"
image = { version = "=0.25.10", default-features = false, features = ["png", "jpeg"] }
rfd = { version = "=0.17.2", default-features = false, features = ["xdg-portal"] }
chrono = "=0.4.45"
tokio = { version = "=1.54.1", features = ["rt", "time"] }
windows = { version = "=0.58.0", features = ["Win32_System_Com", "Win32_UI_Shell"] }
