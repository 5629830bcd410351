[package]
name = "ui_staging"
version = "0.1.0"
edition = "2021"
publish = false

[dependencies]
image = { version = "=0.25.10", default-features = false, features = ["png", "jpeg"] }
serde = { version = "=1.0.229", features = ["derive"] }
serde_json = "=1.0.154"
bytemuck = { version = "=1.25.2", features = ["derive"] }
wgpu = "=30.0.1"
winit = "0.30"
glam = "*"
tobj = "*"
anyhow = "1"
tokio = { version = "1", features = ["rt-multi-thread", "net", "macros"] }
axum = "*"
tower-http = { version = "*", features = ["fs", "trace"] }
reqwest = { version = "*", default-features = false }
wasm-bindgen = "0.2"
web-sys = { version = "0.3", features = ["Window", "Location"] }
