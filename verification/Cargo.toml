[package]
name = "orbis-providers"
version = "0.1.0"
edition = "2021"
publish = false

[dependencies]
async-trait = "0.1"
serde = { version = "1", features = ["derive"] }
serde_json = "1"
thiserror = "2"
tokio = { version = "1", features = ["rt", "rt-multi-thread", "net", "io-util", "time", "macros"] }
zbus = { version = "5", default-features = false, features = ["tokio"] }
drm = "*"
wayland-client = "0.31"
