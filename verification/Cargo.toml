[package]
name = "wgpu_template"
version = "0.1.0"
edition = "2021"
publish = false

[dependencies]
anyhow = "1"
bytemuck = { version = "1", features = ["derive"] }
directories = "5"
glam = { version = "=0.24.2", features = ["bytemuck"] }
once_cell = "1"
serde = { version = "1", features = ["derive"] }
tokio = { version = "1", features = ["macros", "rt-multi-thread"] }
toml_edit = { version = "=0.19.15", features = ["serde"] }
tracing = "0.1"
tracing-subscriber = "0.3"
wgpu = "=0.16.3"
winit = "=0.28.7"
