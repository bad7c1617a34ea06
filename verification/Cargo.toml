[package]
name = "iotd_wallpaper"
version = "0.1.0"
edition = "2021"
publish = false

[dependencies]
anyhow = "*"
quick-xml = { version = "*", features = ["serialize"] }
reqwest = { version = "*", default-features = false }
serde = { version = "*", features = ["derive"] }
tokio = { version = "*", features = ["macros", "rt-multi-thread", "time"] }
url = "*"
wallpaper = "*"
