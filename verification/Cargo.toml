[package]
name = "deskpet"
version = "0.1.0"
edition = "2021"
publish = false

[dependencies]
colored = "=2.2.0"
device_query = "=4.0.1"
glium = "=0.34.0"
glutin = "=0.31.3"
glutin-winit = "=0.4.2"
icrate = { version = "0.1", features = ["AppKit", "AppKit_NSApplication", "AppKit_NSMenu", "Foundation"] }
image = { version = "=0.24.9", default-features = false, features = ["png"] }
raw-window-handle = "=0.5.2"
serde = { version = "=1.0.229", features = ["derive"] }
serde_json = "=1.0.154"
tray-item = "=0.10.0"
winit = "=0.29.15"
