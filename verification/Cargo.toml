[package]
name = "twirp_bridge"
version = "0.1.0"
edition = "2021"
publish = false

[dependencies]
axum = "*"
http-body-util = "*"
pin-project-lite = "*"
prost-reflect = { version = "*", features = ["serde"] }
serde = "*"
serde_json = "*"
tokio-stream = "*"
tonic = "*"
tonic-prost = "*"
tracing = "*"
twurst-error = "*"
