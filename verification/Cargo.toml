[package]
name = "softveil"
version = "0.1.0"
edition = "2021"
publish = false

[dependencies]
sys-locale = "=0.3.2"
image = { version = "=0.25.10", default-features = false, features = ["png", "jpeg", "ico"] }
serde = { version = "=1.0.229", features = ["derive"] }
serde_json = "=1.0.154"
confy = "=0.6.1"
pollster = "=0.3.0"
bytemuck = { version = "=1.25.2", features = ["derive"] }
auto-launch = "=0.5.0"
libc = "=0.2.191"
global-hotkey = "=0.6.4"
tao = "=0.30.8"
muda = "=0.15.3"
tray-icon = "=0.19.3"
objc2 = "0.6"
objc2-foundation = "0.3"
objc2-app-kit = "0.3"
block2 = "0.6"
core-graphics = "0.24"
