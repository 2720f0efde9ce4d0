[package]
name = "native_windows_gui"
version = "0.1.0"
edition = "2021"
publish = false

[dependencies]
winapi = { version = "0.3", features = ["winuser", "windef", "minwindef", "errhandlingapi", "libloaderapi"] }
