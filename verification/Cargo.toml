[package]
name = "splat_viewer"
version = "0.1.0"
edition = "2021"
publish = false

[dependencies]
zip = { version = "*", default-features = false, features = ["deflate"] }
image = { version = "0.25", default-features = false, features = ["webp"] }
serde = { version = "1", features = ["derive"] }
serde_json = "1"
bytemuck = { version = "1", features = ["derive"] }
anyhow = "1"
log = "0.4"
