[package]
name = "snapt"
version = "0.1.0"
edition = "2021"
publish = false

[dependencies]
winapi = { version = "=0.3.9", features = ["winuser", "shellapi", "libloaderapi", "wincon", "dwmapi", "synchapi", "errhandlingapi", "winerror", "minwindef", "windef", "impl-default"] }
device_query = "=4.0.1"
