[package]
name = "net_monitor"
version = "0.1.0"
edition = "2021"
publish = false

[dependencies]
chrono = "=0.4.45"
napi = { version = "=3.15.0", features = ["napi4"] }
napi-derive = "=3.6.13"
windows = { version = "=0.59.0", features = ["Win32_Foundation", "Win32_NetworkManagement_IpHelper", "Win32_NetworkManagement_Ndis", "Win32_NetworkManagement_WiFi", "Win32_Networking_NetworkListManager", "Win32_Networking_WinSock", "Win32_System_Com", "Win32_System_Threading", "Win32_UI_WindowsAndMessaging"] }
windows-core = "=0.59.0"
