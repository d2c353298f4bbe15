[package]
name = "game"
version = "0.1.0"
edition = "2021"
publish = false

[dependencies]
rand = "0.8"
serde = { version = "1", features = ["derive"] }
serde_json = "1"
nalgebra-glm = "0.18"
glutin = "0.29"
winit = "0.27"
gl = "0.14"
glow = "0.12"
egui = "0.22"
egui_glow = "0.22"
mlua = { version = "0.9", features = ["lua54", "vendored"] }
tobj = "4"
