[package]
name = "moq_bridge"
version = "0.1.0"
edition = "2021"
publish = false

[dependencies]
anyhow = "=1.0.104"
gstreamer = "=0.23.7"
gstreamer-base = "=0.23.6"
moq-karp = "=0.15.0"
moq-native = "=0.6.8"
moq-transfork = "=0.12.0"
once_cell = "=1.21.4"
tokio = { version = "=1.54.1", features = ["full"] }
url = "=2.5.8"
