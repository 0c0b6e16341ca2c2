[package]
name = "sigscan"
version = "0.1.0"
edition = "2021"
publish = false

[dependencies]
chrono = "*"
eldenring = "*"
fromsoftware-shared = "*"
windows = { version = "*", features = ["Win32_Foundation", "Win32_System_LibraryLoader", "Win32_System_ProcessStatus", "Win32_System_Threading"] }
