[package]
name = "rt_btwatch2_exporter"
version = "0.1.0"
edition = "2021"
publish = false

[dependencies]
bluer = { version = "*", features = ["bluetoothd"] }
clap = { version = "4", features = ["derive"] }
env_logger = "*"
log = "0.4"
metrics = "*"
metrics-exporter-prometheus = "*"
tokio = { version = "1", features = ["macros", "rt-multi-thread"] }
tokio-stream = "*"
