[package]
name = "astrix_client"
version = "0.1.0"
edition = "2021"
publish = false

[dependencies]
chacha20poly1305 = "=0.10.1"
eframe = { version = "=0.29.1", default-features = false, features = ["glow", "default_fonts"] }
image = { version = "0.25", default-features = false, features = ["png", "jpeg"] }
parking_lot = "0.12"
rand = "=0.8.8"
rfd = { version = "0.15", default-features = false, features = ["xdg-portal", "tokio"] }
serde = { version = "1", features = ["derive"] }
serde_json = "=1.0.154"
thiserror = "1"
tokio = { version = "1", features = ["rt-multi-thread", "sync", "time", "signal", "macros"] }
url = "=2.5.8"
windows = { version = "0.62", default-features = false, features = ["Win32_Foundation", "Win32_Graphics_Direct3D", "Win32_Graphics_Direct3D_Fxc", "Win32_Graphics_Direct3D11", "Win32_Graphics_Dxgi", "Win32_Graphics_Dxgi_Common", "Win32_Graphics_Gdi", "Win32_Graphics_OpenGL", "Win32_Media_MediaFoundation", "Win32_Security", "Win32_System_Com", "Win32_System_LibraryLoader", "Win32_System_Threading", "Win32_System_Variant", "Win32_UI_WindowsAndMessaging"] }
windows-core = "0.62"
winreg = "0.52"
