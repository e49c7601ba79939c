[package]
name = "nasa_wallpaper"
version = "2.1.0"
edition = "2021"
publish = false

[dependencies]
anyhow = "1"
chrono = "0.4"
chrono-tz = "0.10"
clap = "4"
colored = "2"
image = { version = "0.24", default-features = false, features = ["png", "jpeg", "gif", "bmp", "tiff"] }
imageproc = { version = "0.23", default-features = false }
rand = "0.9"
reqwest = { version = "0.12", default-features = false, features = ["blocking", "json", "rustls-tls"] }
rusttype = "0.9"
serde = { version = "1", features = ["derive"] }
serde_json = "1"
textwrap = "0.16"
wallpaper = "3"
