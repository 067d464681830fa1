[package]
name = "oasis_walk"
version = "0.1.0"
edition = "2021"
publish = false

[dependencies]
bevy = { version = "=0.17.3", default-features = false, features = ["std", "bevy_pbr", "bevy_gltf", "bevy_animation", "bevy_scene", "bevy_window"] }
avian3d = { version = "=0.4.1", default-features = false, features = ["3d", "f32", "parry-f32", "default-collider"] }
