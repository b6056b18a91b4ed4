[package]
name = "desktop_native"
version = "0.1.0"
edition = "2021"
publish = false

[dependencies]
anyhow = "=1.0.104"
base64 = "=0.22.1"
rand = "=0.9.5"
sha2 = "=0.10.9"
tracing = "=0.1.44"
windows = { version = "=0.58.0", features = ["Win32_Foundation", "Win32_UI_Input_KeyboardAndMouse", "Win32_UI_WindowsAndMessaging"] }
zbus = "=5.19.0"
zbus_polkit = "=5.1.0"
