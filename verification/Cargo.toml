[package]
name = "nude"
version = "0.1.0"
edition = "2021"
publish = false

[dependencies]
anyhow = "=1.0.104"
bollard = "=0.21.1"
chrono = "=0.4.45"
futures = "=0.3.34"
interprocess = "~2.2"
nu-plugin = "=0.110.0"
nu-protocol = "=0.110.0"
serde = "=1.0.229"
serde_json = "=1.0.154"
tokio = { version = "=1.54.1", features = ["rt-multi-thread"] }
