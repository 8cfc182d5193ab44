[package]
name = "event_bridge"
version = "0.1.0"
edition = "2021"
publish = false

[dependencies]
windows = { version = "=0.48.0", features = ["Win32_Foundation", "Win32_Graphics_Dwm", "Win32_Graphics_Gdi", "Win32_System_LibraryLoader", "Win32_System_Power", "Win32_System_SystemServices", "Win32_UI_Controls", "Win32_UI_WindowsAndMessaging"] }
winvd = "=0.0.49"
serde = { version = "=1.0.229", features = ["derive"] }
raw-window-handle = "=0.5.2"
