[package]
name = "wtm"
version = "0.1.0"
edition = "2021"
publish = false

[dependencies]
chrono = "0.4"
crossbeam-channel = "0.5"
dirs = "*"
log = "0.4"
once_cell = "1"
serde = { version = "1", features = ["derive"] }
simple_logger = "*"
toml = "*"
winapi = { version = "0.3", features = ["errhandlingapi", "libloaderapi", "minwindef", "ntdef", "shellapi", "windef", "wingdi", "winnt", "winreg", "winuser"] }
