[package]
name = "mutools"
version = "0.1.0"
edition = "2021"
publish = false

[dependencies]
base64 = "0.22"
md5 = "0.7"
encoding_rs = "0.8"
serde = { version = "1", features = ["derive"] }
serde_json = "1"
chrono = { version = "0.4", default-features = false, features = ["clock"] }
log = "0.4"
uuid = { version = "1", features = ["v4"] }
zip = { version = "2", default-features = false, features = ["deflate"] }
reqwest = { version = "0.12", default-features = false, features = ["stream"] }
tokio = { version = "1", features = ["rt", "time"] }
futures-util = "0.3"
winreg = "0.52"
windows-sys = { version = "0.59", features = ["Win32_Foundation", "Win32_Security", "Win32_System_Threading", "Win32_UI_Shell", "Win32_UI_WindowsAndMessaging"] }
