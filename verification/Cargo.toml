[package]
name = "clipoo"
version = "0.1.0"
edition = "2021"
publish = false

[dependencies]
rusqlite = { version = "=0.32.1", features = ["bundled"] }
uuid = { version = "=1.29.0", features = ["v4"] }
serde = { version = "=1.0.229", features = ["derive"] }
thiserror = "=1.0.69"
image = { version = "=0.25.10", default-features = false, features = ["png", "bmp"] }
clipboard-win = "=5.4.3"
windows-sys = { version = "=0.59.0", features = ["Win32_Foundation", "Win32_System_Threading", "Win32_UI_WindowsAndMessaging"] }
