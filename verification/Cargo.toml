[package]
name = "flatland"
version = "0.1.0"
edition = "2021"
publish = false

[dependencies]
colorgrad = "=0.6.2"
derive_setters = "=0.1.9"
glam = { version = "=0.24.2", features = ["mint"] }
lazy_static = "=1.5.1"
mint = "=0.5.9"
stardust-xr-asteroids = "=0.52.0"
stardust-xr-fusion = "=0.43.2"
stardust-xr-molecules = "=0.29.0"
tracing = "=0.1.44"
