[package]
name = "steam_patch"
version = "0.1.0"
edition = "2021"
publish = false

[dependencies]
serde = { version = "1", features = ["derive"] }
serde_json = "1"
dirs = "5"
tokio = { version = "1", features = ["full"] }
hyper = { version = "0.14", features = ["full"] }
futures = "0.3"
evdev = { version = "0.12", features = ["tokio"] }
inotify = "0.10"
sysinfo = "0.29"
tungstenite = "0.20"
actix-web = "4"
regex = "1"
