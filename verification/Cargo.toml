[package]
name = "tmc"
version = "0.1.0"
edition = "2021"
publish = false

[dependencies]
anyhow = "1"
dirs = "5"
image = { version = "0.25", default-features = false, features = ["png", "ico"] }
mslnk = "0.1"
ntapi = "0.4"
once_cell = "1"
parking_lot = "0.12"
rand = "0.8"
rusttype = "0.9"
scopeguard = "1"
serde = { version = "1", features = ["derive"] }
serde_json = "1"
thiserror = "1"
tokio = { version = "1", features = ["rt-multi-thread", "time", "macros"] }
tracing = "0.1"
tracing-subscriber = "0.3"
windows-sys = { version = "0.59", features = ["Win32_Foundation", "Win32_System_SystemInformation", "Win32_System_Threading", "Win32_System_ProcessStatus", "Win32_System_Memory", "Win32_System_Diagnostics_ToolHelp", "Win32_UI_WindowsAndMessaging", "Win32_Security", "Win32_Storage_FileSystem", "Win32_System_IO", "Win32_System_Registry", "Win32_System_EventLog", "Win32_System_LibraryLoader", "Win32_System_Console", "Win32_UI_Shell", "Win32_Graphics_Dwm", "Win32_Graphics_Gdi", "Win32_UI_HiDpi"] }
