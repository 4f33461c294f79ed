[package]
name = "pullbell"
version = "0.6.0"
edition = "2021"
publish = false

[dependencies]
anyhow = "1"
arboard = "3"
chrono = "0.4"
dirs = "*"
image = { version = "0.25", default-features = false, features = ["png"] }
keyring = { version = "3", features = ["apple-native"] }
mac-notification-sys = "*"
objc2-app-kit = "*"
objc2-foundation = "*"
open = "5"
reqwest = { version = "0.12", default-features = false, features = ["json", "rustls-tls"] }
serde = { version = "1", features = ["derive"] }
serde_json = "1"
tao = "*"
tokio = { version = "1", features = ["rt-multi-thread", "macros", "time", "sync"] }
tray-icon = "*"
url = "2"
urlencoding = "2"
wry = "*"
