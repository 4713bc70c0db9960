[package]
name = "photo_cache"
version = "0.1.0"
edition = "2021"
publish = false

[dependencies]
dotenv = "*"
log = "*"
mpris = "*"
reqwest = { version = "*", default-features = false, features = ["json"] }
serde = { version = "*", features = ["derive"] }
serde_json = "*"
thiserror = "*"
