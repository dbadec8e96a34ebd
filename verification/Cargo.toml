[package]
name = "ramopt"
version = "1.0.0"
edition = "2021"
publish = false

[dependencies]
global-hotkey = "*"
image = { version = "*", default-features = false, features = ["ico"] }
raw-window-handle = "0.6"
serde = { version = "1", features = ["derive"] }
serde_json = "1"
tray-icon = "*"
windows-sys = { version = "0.59", features = ["Win32_Foundation", "Win32_Security", "Win32_Storage_FileSystem", "Win32_System_LibraryLoader", "Win32_System_SystemInformation", "Win32_System_Threading", "Win32_UI_WindowsAndMessaging"] }
winreg = "*"
