[package]
name = "tattoy"
version = "0.1.0"
edition = "2021"
publish = false

[dependencies]
termwiz = "=0.23.3"
rand = "=0.8.8"
image = { version = "=0.25.10", default-features = false, features = ["png"] }
tokio = { version = "=1.54.1", features = ["full"] }
serde = { version = "=1.0.229", features = ["derive"] }
serde_json = "=1.0.154"
toml = "=0.8.23"
clap = { version = "=4.6.7", features = ["derive"] }
color-eyre = "=0.6.5"
tracing = "=0.1.44"
futures-util = "=0.3.34"
tattoy-protocol = "=0.1.1"
glam = "=0.34.1"
rayon = "=1.12.0"
rstar = "=0.13.0"
wgpu = "26"
