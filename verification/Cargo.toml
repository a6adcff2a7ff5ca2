[package]
name = "window_rectangle"
version = "0.1.0"
edition = "2021"
publish = false

[dependencies]
anyhow = "1"
tray-icon = "0.19"
winit = "0.30"
windows = { version = "0.58", features = ["Win32_Foundation", "Win32_UI_WindowsAndMessaging", "Win32_UI_Input_KeyboardAndMouse", "Win32_Graphics_Gdi", "Win32_UI_Accessibility", "Win32_System_LibraryLoader"] }
