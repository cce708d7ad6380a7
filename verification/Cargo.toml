[package]
name = "machineid_manage"
version = "2.0.0"
edition = "2021"
publish = false

[dependencies]
rand = "=0.8.8"
serde = { version = "=1.0.229", features = ["derive"] }
serde_json = "=1.0.154"
libc = "=0.2.191"
tracing = "=0.1.44"
tracing-subscriber = { version = "=0.3.23", features = ["env-filter"] }
winreg = "=0.52.0"
windows = { version = "=0.52.0", features = ["Win32_Foundation", "Win32_UI_Shell", "Win32_UI_WindowsAndMessaging"] }

[dev-dependencies]
regex = "1"
