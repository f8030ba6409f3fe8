[package]
name = "quick_settings"
version = "0.1.0"
edition = "2021"
publish = false

[dependencies]
bluer = { version = "=0.17.4", features = ["bluetoothd"] }
futures = "=0.3.34"
logind-zbus = "=5.3.2"
nmrs = "=3.5.7"
tokio = { version = "=1.54.1", features = ["rt", "time", "sync"] }
zbus = "=5.19.0"
