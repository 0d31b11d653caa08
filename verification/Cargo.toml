[package]
name = "vizia_platform"
version = "0.1.0"
edition = "2021"
publish = false

[dependencies]
baseview = { version = "=0.4.1", features = ["opengl"] }
gl = "=0.14.0"
glutin = "=0.32.3"
glutin-winit = "=0.5.0"
keyboard-types = "=0.8.3"
raw-window-handle = "=0.6.2"
skia-safe = { version = "=0.153.3", features = ["gl", "d3d"] }
windows = { version = "=0.62.2", features = ["Win32_Foundation", "Win32_Graphics_Direct3D", "Win32_Graphics_Direct3D12", "Win32_Graphics_Dxgi", "Win32_Graphics_Dxgi_Common", "Win32_Security", "Win32_System_Threading"] }
winit = "=0.30.13"
