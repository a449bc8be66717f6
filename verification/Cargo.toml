[package]
name = "anasaizi"
version = "0.1.0"
edition = "2021"
publish = false

[dependencies]
ash = "0.32"
winit = "0.24"
num = "0.3"
bincode = "1"
serde = { version = "1", features = ["derive"] }
winapi = { version = "0.3", features = ["libloaderapi"] }

[dev-dependencies]
nalgebra = "0.25"
