[package]
name = "ctl_tab"
version = "0.1.0"
edition = "2021"
publish = false

[dependencies]
base64 = "=0.22.1"
serde = { version = "=1.0.229", features = ["derive"] }
serde_json = "=1.0.154"
block2 = "=0.6.2"
objc2 = "=0.6.5"
objc2-foundation = "=0.3.2"
objc2-app-kit = "=0.3.2"
core-foundation = "=0.10.1"
window-vibrancy = "=0.8.1"
