[package]
name = "webview_optimizer"
version = "0.1.0"
edition = "2021"
publish = false

[dependencies]
serde = { version = "=1.0.229", features = ["derive"] }
sysinfo = "=0.39.6"
dirs = "=7.0.0"
wmi = "=0.18.4"

[dependencies.windows]
version = "=0.61.3"
features = [
    "Win32_Foundation",
    "Win32_System_Threading",
    "Win32_System_Performance",
    "Win32_System_Diagnostics_ToolHelp",
    "Win32_Graphics_Dxgi",
    "Win32_Graphics_Dwm",
    "Win32_UI_HiDpi",
]
