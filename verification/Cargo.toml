[package]
name = "warp_local"
version = "0.1.0"
edition = "2021"
publish = false

[dependencies]
uuid = { version = "=1.29.1", features = ["v4"] }
futures = "=0.3.34"
chrono = "=0.4.45"
pathfinder_color = "=0.5.0"
serde = { version = "=1.0.229", features = ["derive"] }
log = "0.4"
anyhow = "1"
