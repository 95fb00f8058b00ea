[package]
name = "user_colors"
version = "0.1.0"
edition = "2021"
publish = false

[dependencies]
anyhow = "=1.0.104"
libadwaita = "=0.9.2"
notify = "=8.2.0"
ron = "=0.12.2"
serde = { version = "=1.0.229", features = ["derive"] }
toml = "=1.1.8"
xdg = "=3.0.0"
