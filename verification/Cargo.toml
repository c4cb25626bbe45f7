[package]
name = "gnome_shot"
version = "0.1.0"
edition = "2021"
publish = false

[dependencies]
anyhow = "=1.0.104"
ashpd = { version = "=0.13.13", default-features = false, features = ["screenshot", "tokio"] }
cairo-rs = "=0.22.9"
gtk4 = "=0.11.5"
libadwaita = "=0.9.2"
tokio = { version = "=1.53.2", features = ["full"] }
url = "=2.5.8"
