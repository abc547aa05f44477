[package]
name = "gdble"
version = "0.5.5"
edition = "2021"
publish = false

[dependencies]
godot = "0.4"
tokio = { version = "1", features = ["rt-multi-thread", "sync", "time", "macros"] }
futures = "0.3"
windows = { version = "*", features = ["Devices_Bluetooth", "Devices_Enumeration", "Foundation", "Foundation_Collections"] }
