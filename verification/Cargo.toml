[package]
name = "singboard"
version = "0.1.0"
edition = "2021"
publish = false

[dependencies]
sha2 = "0.10"
hickory-resolver = "*"
serde = { version = "1", features = ["derive"] }
serde_json = "1"
tokio = { version = "1", features = ["full"] }
reqwest = { version = "0.12", default-features = false }
winreg = "*"
windows-sys = { version = "0.59", features = ["Win32_Foundation", "Win32_Security", "Win32_Security_Authorization", "Win32_System_Pipes", "Win32_System_Threading", "Win32_System_Services", "Win32_Storage_FileSystem", "Win32_System_Com", "Win32_UI_Shell", "Win32_System_Environment", "Win32_UI_WindowsAndMessaging"] }
