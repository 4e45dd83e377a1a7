[package]
name = "flappy_bird"
version = "0.1.0"
edition = "2021"
publish = false

[dependencies]
anyhow = "=1.0.104"
gl = "=0.14.0"
glfw = { version = "=0.59.0", default-features = false, features = ["raw-window-handle-v0-6"] }
image = { version = "=0.25.10", default-features = false, features = ["png"] }
msdfgen = { version = "=0.2.1", default-features = false, features = ["ttf-parser"] }
nalgebra-glm = "=0.19.0"
rand = "=0.9.5"
rodio = { version = "=0.21.1", default-features = false, features = ["playback", "wav"] }
serde = { version = "=1.0.229", features = ["derive"] }
serde_json = "=1.0.154"
ttf-parser = "=0.18.1"
