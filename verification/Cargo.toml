[package]
name = "bt_autoconnect"
version = "0.1.0"
edition = "2021"
publish = false

[dependencies]
backon = "*"
bluer = { version = "*", features = ["bluetoothd"] }
futures = "*"
tokio = { version = "*", features = ["macros", "rt", "sync", "time"] }
