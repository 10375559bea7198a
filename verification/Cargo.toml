[package]
name = "phoenix_engine"
version = "0.1.0"
edition = "2021"
publish = false

[dependencies]
hecs = "=0.10.5"
uuid = { version = "=1.29.0", features = ["v4", "serde"] }
serde = { version = "=1.0.229", features = ["derive"] }
serde_json = "=1.0.154"
toml = "=0.8.23"
glam = { version = "=0.29.3", features = ["serde"] }
egui = "=0.29.1"
eframe = { version = "=0.29.1", default-features = false, features = ["default_fonts", "glow", "x11"] }
image = { version = "=0.25.10", default-features = false, features = ["png"] }
pyo3 = "=0.23.5"
rand = "=0.8.8"
instant = "=0.1.13"
chrono = { version = "=0.4.45", default-features = false, features = ["clock"] }
tracing = "=0.1.44"
tracing-subscriber = { version = "=0.3.23", default-features = false, features = ["fmt", "std"] }
