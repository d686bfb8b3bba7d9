[package]
name = "directinput"
version = "0.1.0"
edition = "2021"
publish = false

[dependencies]
bitflags = "=1.3.2"
raw-window-handle = "=0.4.3"
winapi = "=0.3.9"
windows = { version = "=0.58.0", features = ["Win32_Devices_HumanInterfaceDevice", "Win32_Foundation", "Win32_Security", "Win32_System_Com", "Win32_System_LibraryLoader", "Win32_System_Threading"] }
windows-core = "=0.58.0"
winit = "=0.26.1"
