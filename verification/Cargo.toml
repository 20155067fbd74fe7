[package]
name = "nokto_theme"
version = "0.1.0"
edition = "2021"
publish = false

[dependencies]
csscolorparser = "=0.8.4"
palette = "=0.7.7"
serde = { version = "=1.0.229", features = ["derive"] }
serde_json = "=1.0.154"
anyhow = "=1.0.104"
