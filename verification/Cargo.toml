[package]
name = "mc_docker"
version = "0.1.0"
edition = "2021"
publish = false

[dependencies]
async-trait = "=0.1.92"
bollard = "=0.14.0"
chrono = "=0.4.45"
craftping = { version = "=0.8.0", features = ["async-tokio"] }
firestore = "=0.61.1"
futures = "=0.3.34"
hyper = { version = "=0.14.32", features = ["stream"] }
regex = "=1.13.1"
serde = { version = "=1.0.229", features = ["derive"] }
serde_yaml = "=0.9.34"
tokio = { version = "=1.54.1", features = ["full"] }
tokio-stream = "=0.1.19"
toml = "=0.7.8"
warp = "=0.3.7"
