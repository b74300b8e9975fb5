[package]
name = "escape_room"
version = "0.1.0"
edition = "2021"
publish = false

[dependencies]
bevy = { version = "=0.5.0", default-features = false, features = ["bevy_gltf", "bevy_wgpu", "bevy_winit", "png", "render", "x11"] }
bevy_ecs = "=0.5.0"
bevy_egui = { version = "=0.4.2", default-features = false }
bevy_flycam = "=0.5.1"
bevy_mod_raycast = "=0.2.2"
bevy_transform = "=0.5.0"
wasm-bindgen = "0.2"
