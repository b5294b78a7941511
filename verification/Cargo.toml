[package]
name = "etheryal_extension"
version = "0.1.0"
edition = "2021"
publish = false

[dependencies]
bevy_app = "=0.12.1"
bevy_ecs = "=0.12.1"
rmp-serde = "=1.3.1"
serde = { version = "=1.0.229", features = ["derive"] }
semver = { version = "=1.0.28", features = ["serde"] }
thiserror = "=1.0.69"

[dev-dependencies]
rmp = "=0.8.15"
