[package]
name = "unseamless_coop"
version = "0.1.0"
edition = "2021"
publish = false

[dependencies]
log = "=0.4.35"
pelite = "=0.10.0"
sha2 = "=0.10.9"
simplelog = "=0.12.2"
thiserror = "=2.0.21"
steamworks = "=0.13.1"
ilhook = "=2.3.0"
eldenring = "=0.14.0"
fromsoftware-shared = "=0.14.0"
windows = { version = "=0.52.0", features = ["Win32_Foundation", "Win32_Graphics_Direct3D", "Win32_Graphics_Direct3D12", "Win32_Graphics_Dxgi", "Win32_Graphics_Dxgi_Common", "Win32_Graphics_Gdi", "Win32_Security", "Win32_Security_Cryptography", "Win32_Storage_FileSystem", "Win32_System_DataExchange", "Win32_System_Diagnostics_Debug", "Win32_System_Kernel", "Win32_System_LibraryLoader", "Win32_System_Memory", "Win32_System_SystemInformation", "Win32_System_SystemServices", "Win32_System_Threading", "Win32_UI_WindowsAndMessaging"] }
