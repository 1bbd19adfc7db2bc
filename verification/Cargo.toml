[package]
name = "camera_engine"
version = "0.1.0"
edition = "2021"
publish = false

[dependencies]
crossbeam-channel = "0.5"
parking_lot = "0.12"
thiserror = "1.0"
uniffi = "0.28"
windows = { version = "0.58", features = ["Foundation", "Foundation_Collections", "Media_Capture", "Media_Capture_Frames", "Media_MediaProperties", "Graphics_DirectX_Direct3D11", "Win32_Foundation", "Win32_Security", "Win32_Graphics_Direct3D", "Win32_Graphics_Direct3D11", "Win32_Graphics_Dxgi", "Win32_Graphics_Dxgi_Common", "Win32_System_WinRT", "Win32_System_WinRT_Direct3D11"] }
