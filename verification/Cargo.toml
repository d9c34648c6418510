[package]
name = "focus_service"
version = "0.1.0"
edition = "2021"
publish = false

[dependencies]
chrono = { version = "=0.4.45", features = ["serde"] }
dotenv = "=0.15.0"
fern = "=0.6.2"
log = "=0.4.34"
once_cell = "=1.21.4"
rocket = { version = "=0.5.2", features = ["json"] }
sea-orm = { version = "=0.12.15", default-features = false, features = ["sqlx-sqlite", "runtime-tokio-rustls", "macros", "with-chrono"] }
tokio = { version = "=1.54.1", features = ["sync", "macros", "rt-multi-thread"] }
windows = { version = "=0.48.0", features = ["Win32_Foundation", "Win32_Graphics_Gdi", "Win32_Storage_FileSystem", "Win32_System_ProcessStatus", "Win32_System_SystemInformation", "Win32_System_Threading", "Win32_UI_Accessibility", "Win32_UI_WindowsAndMessaging"] }
