[package]
name = "whatsapp_relay"
version = "0.1.0"
edition = "2021"
publish = false

[dependencies]
actix-web = "4"
env_logger = "*"
log = "*"
serde = "*"
serde_derive = "*"
serde_json = "*"
ureq = { version = "*", features = ["json"] }
