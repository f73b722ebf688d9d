[package]
name = "win_async"
version = "0.1.0"
edition = "2021"
publish = false

[dependencies]
windows-sys = { version = "0.48", features = ["Win32_Foundation", "Win32_Storage_FileSystem", "Win32_System_WindowsProgramming", "Win32_System_IO", "Win32_Security"] }
