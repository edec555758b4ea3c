[package]
name = "groket-hud"
version = "0.1.0"
edition = "2021"
publish = false

[dependencies]
global-hotkey = "0.7"
iced = { version = "=0.14.0", default-features = false, features = ["image", "tiny-skia", "tokio", "x11"] }
ksni = { version = "0.3", features = ["blocking"] }
serde = { version = "=1.0.229", features = ["derive"] }
serde_json = "=1.0.154"
thiserror = "=2.0.21"
tokio = { version = "=1.54.1", features = ["rt", "time"] }
