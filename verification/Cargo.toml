[package]
name = "team_platformer"
version = "0.1.0"
edition = "2021"
publish = false

[dependencies]
clap = { version = "3", features = ["derive"] }
nalgebra = "*"
sdl2 = "*"
serde = "1"
serde_derive = "1"
serde_json = "1"
specs = "*"
tokio = { version = "1", features = ["full"] }
