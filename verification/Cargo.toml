[package]
name = "api_service"
version = "0.1.0"
edition = "2021"
publish = false

[dependencies]
image = { version = "*", default-features = false, features = ["jpeg", "png", "bmp", "gif", "webp", "tiff"] }
mime = "*"
rand = "*"
actix-web = { version = "*", default-features = false }
actix-multipart = "*"
reqwest = { version = "*", default-features = false, features = ["blocking"] }
serde = { version = "*", features = ["derive"] }
futures = "*"
bytes = "*"
env_logger = "*"
