[package]
name = "injector"
version = "0.1.0"
edition = "2021"
publish = false

[dependencies]
widestring = "=1.2.1"
bytemuck = "=1.25.2"
anyhow = "=1.0.104"
log = "=0.4.34"
env_logger = "=0.11.11"
once_cell = "=1.21.4"
clap = { version = "=4.6.7", features = ["derive"] }
windows = { version = "=0.52.0", features = [
    "Win32_Foundation",
    "Win32_Security",
    "Win32_System_Threading",
    "Win32_System_Memory",
    "Win32_System_Diagnostics_Debug",
    "Win32_System_Diagnostics_ToolHelp",
    "Win32_System_LibraryLoader",
] }
