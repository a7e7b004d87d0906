[package]
name = "auto_dark_mode"
version = "0.1.0"
edition = "2021"
publish = false

[dependencies]
clap = { version = "*", features = ["derive"] }
winreg = "*"
registry = "*"
reg-watcher = "*"
sysinfo = "*"
winapi = { version = "*", features = ["minwindef", "wincon", "processthreadsapi", "winbase"] }
