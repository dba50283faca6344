[package]
name = "wsl_api"
version = "0.1.0"
edition = "2021"
publish = false

[dependencies]
bitflags = "2"
uuid = "1"
widestring = "1"
windows = { version = "0.57", features = ["Win32_Foundation", "Win32_Networking_WinSock", "Win32_Security", "Win32_Storage_FileSystem", "Win32_System_Com", "Win32_System_IO"] }
