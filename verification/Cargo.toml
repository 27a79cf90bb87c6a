[package]
name = "iced_ruffle"
version = "0.1.0"
edition = "2021"
publish = false

[dependencies]
cpal = "0.15"
bytemuck = "=1.25.2"
thiserror = "2"
tracing = "0.1"
tracing-subscriber = { version = "0.3", features = ["env-filter"] }
url = "2"
