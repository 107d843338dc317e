[package]
name = "aj_rs"
version = "0.1.0"
edition = "2021"
publish = false

[dependencies]
once_cell = "1"
windows = { version = "0.52", features = [
    "Win32_Foundation",
    "Win32_Globalization",
    "Win32_System_Com",
    "Win32_System_LibraryLoader",
    "Win32_System_Ole",
    "Win32_System_Variant",
] }
