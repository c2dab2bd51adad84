[package]
name = "cvm"
version = "0.1.0"
edition = "2021"
publish = false

[dependencies]
hadris = "=1.2.1"
hadris-iso = "=1.2.1"
quick-xml = { version = "=0.42.0", features = ["serialize"] }
serde = { version = "=1.0.229", features = ["derive"] }
virt = "=0.5.0"
log = "=0.4.35"
env_logger = "=0.11.11"
