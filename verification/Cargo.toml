[package]
name = "russ"
version = "0.1.0"
edition = "2021"
publish = false

[dependencies]
shadowsocks-service = { version = "=1.25.0", default-features = false, features = ["local", "aead-cipher"] }
serde = { version = "=1.0.229", features = ["derive"] }
serde_json = "=1.0.154"
anyhow = "=1.0.104"
log = "=0.4.35"
log4rs = { version = "=1.4.0", default-features = false, features = ["file_appender", "pattern_encoder"] }
tokio = { version = "=1.54.1", features = ["rt-multi-thread", "sync", "macros"] }
futures = "=0.3.34"
native-windows-gui = "=1.0.13"
native-windows-derive = "=1.0.5"
winapi = { version = "=0.3.9", features = ["winuser", "commctrl"] }
winreg = "=0.10.1"
