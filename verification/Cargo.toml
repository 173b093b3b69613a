[package]
name = "depth_peeling"
version = "0.1.0"
edition = "2021"
publish = false

[dependencies]
bevy_app = "=0.19.1"
bevy_asset = "=0.19.1"
bevy_camera = "=0.19.1"
bevy_core_pipeline = "=0.19.1"
bevy_ecs = "=0.19.1"
bevy_image = "=0.19.1"
bevy_material = "=0.19.1"
bevy_math = "=0.19.1"
bevy_mesh = "=0.19.1"
bevy_render = "=0.19.1"
bevy_shader = "=0.19.1"
gltf = { version = "=1.4.1", default-features = false, features = ["KHR_texture_transform", "extensions", "extras", "names", "utils"] }
indexmap = "=2.14.2"
serde_json = "=1.0.154"
tracing = "=0.1.44"
