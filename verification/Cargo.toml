[package]
name = "generic_device_plugin"
version = "0.1.0"
edition = "2021"
publish = false

[dependencies]
anyhow = "=1.0.104"
notify = "=6.1.1"
prost = "=0.12.6"
tokio = { version = "=1.54.1", features = ["macros", "net", "rt-multi-thread", "sync", "time"] }
tokio-stream = { version = "=0.1.19", features = ["net"] }
tonic = "=0.11.0"
tower = { version = "=0.4.13", features = ["util"] }
tracing = "=0.1.44"
