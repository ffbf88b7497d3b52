[package]
name = "wgpu_crate"
version = "0.1.0"
edition = "2021"
publish = false

[dependencies]
anyhow = "=1.0.104"
bevy = { version = "0.17", default-features = false, features = ["bevy_core_pipeline", "bevy_dev_tools", "bevy_gizmos", "bevy_log", "bevy_render"] }
bytemuck = { version = "=1.25.2", features = ["derive"] }
crossbeam-channel = "=0.5.17"
rand = "=0.9.5"
wgpu = "=26.0.1"

[dev-dependencies]
wgpu = { version = "=26.0.1", features = ["noop"] }
