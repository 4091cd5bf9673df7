[package]
name = "syncinput"
version = "0.1.0"
edition = "2021"
publish = false

[dependencies]
serde = { version = "1", features = ["derive"] }
serde_json = "1"
qrcode = { version = "*", default-features = false, features = ["svg"] }
image = { version = "*", default-features = false, features = ["png"] }
tokio = { version = "1", features = ["rt-multi-thread", "net", "sync", "macros", "time"] }
axum = { version = "*", features = ["ws"] }
tao = "*"
wry = "*"
tray-icon = "*"
muda = "*"
arboard = "*"
mslnk = "*"
