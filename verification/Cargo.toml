[package]
name = "audio_isolation_mirror"
version = "0.2.0"
edition = "2021"
publish = false

[dependencies]
anyhow = "1"
cpal = "0.15"
ringbuf = "0.4"
rubato = "0.16"
serde = { version = "1", features = ["derive"] }
serde_json = "1"
windows = { version = "0.54", features = ["Win32_Devices_FunctionDiscovery", "Win32_Foundation", "Win32_Graphics_Gdi", "Win32_Media_Audio", "Win32_Security", "Win32_System_Com", "Win32_System_Com_StructuredStorage", "Win32_System_Threading", "Win32_System_Variant", "Win32_System_WinRT", "Win32_UI_Shell", "Win32_UI_Shell_PropertiesSystem", "Win32_UI_WindowsAndMessaging"] }
