[package]
name = "tokio_process_terminate"
version = "0.1.0"
edition = "2021"
publish = false

[dependencies]
tokio = { version = "=1.53.2", features = ["process", "time", "rt"] }
async-trait = "=0.1.92"
libc = "=0.2.190"
windows-sys = { version = "=0.59.0", features = ["Win32_Foundation", "Win32_System_Threading", "Win32_UI_WindowsAndMessaging"] }
