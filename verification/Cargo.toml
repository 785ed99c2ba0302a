[package]
name = "triforces"
version = "0.1.0"
edition = "2021"
publish = false

[dependencies]
stb_image = "*"
toml = "*"
serde = { version = "*", features = ["derive"] }
log = "*"
chrono = "*"
