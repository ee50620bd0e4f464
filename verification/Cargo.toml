[package]
name = "chiu"
version = "0.1.0"
edition = "2021"
publish = false

[dependencies]
serde_json = { version = "=1.0.154", features = ["preserve_order"] }
time = { version = "=0.3.55", features = ["formatting"] }
tauri = { version = "=2.12.5", default-features = false, features = ["tray-icon", "wry"] }
libc = "=0.2.191"
core-foundation = "=0.10.1"
objc2-app-kit = "=0.3.2"
objc2-foundation = "=0.3.2"
windows-sys = { version = "=0.61.2", features = ["Win32_Foundation", "Win32_NetworkManagement_IpHelper", "Win32_NetworkManagement_Ndis", "Win32_Storage_FileSystem", "Win32_System_DataExchange", "Win32_System_Memory", "Win32_System_Power", "Win32_System_SystemServices", "Win32_System_Threading", "Win32_UI_WindowsAndMessaging"] }
