[package]
name = "webhook_responder"
version = "0.1.0"
edition = "2021"
publish = false

[dependencies]
ed25519-dalek = "*"
hex = "*"
serde = { version = "*", features = ["derive"] }
serde_json = "*"
actix-web = { version = "*", default-features = false }
reqwest = { version = "*", default-features = false, features = ["blocking"] }
config = { version = "*", default-features = false, features = ["yaml"] }
threadpool = "*"
