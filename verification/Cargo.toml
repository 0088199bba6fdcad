[package]
name = "kingdom_sim"
version = "0.1.0"
edition = "2021"
publish = false

[dependencies]
bevy = { version = "0.13", default-features = false }
bevy_turborand = "0.8"
chrono = "0.4"
rand = "0.8"
serde = { version = "1", features = ["derive"] }
noise = "0.8"
sun-times = "*"
