[package]
name = "bevy_ecs_tilemap"
version = "0.15.0"
edition = "2021"
publish = false

[dependencies]
bevy = { version = "0.15", default-features = false, features = ["bevy_color"] }
serde = { version = "1", features = ["derive"] }
