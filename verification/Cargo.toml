[package]
name = "cbar"
version = "0.1.0"
edition = "2021"
publish = false

[dependencies]
tokio = { version = "1", features = ["sync", "net", "io-util", "rt"] }
mlua = { version = "0.9", features = ["lua54", "vendored", "async", "serialize", "unstable"] }
clap = { version = "4", features = ["derive"] }
serde = { version = "1", features = ["derive"] }
serde_json = "1"
futures = "0.3"
thiserror = "1"
grass = "0.13"
freedesktop-icons = "0.2"
sysinfo = "0.29"
libpulse-binding = "2"
gtk4 = "0.6"
gtk4-layer-shell = "*"
paste = "1"
