[package]
name = "wsl_kernel"
version = "0.1.0"
edition = "2021"
publish = false

[dependencies]
anyhow = "*"
futures = "*"
jupyter-protocol = "*"
jupyter-websocket-client = "*"
log = "*"
lopdf = "*"
runtimelib = "*"
serde_json = "*"
smol = "*"
uuid = { version = "*", features = ["v4"] }
